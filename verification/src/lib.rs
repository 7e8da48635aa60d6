//! Fee models and indicator bookkeeping for a trading platform, with their
//! rules stated as contracts over plain-value models of decimals and money.

pub mod decimal;
pub mod fee;
pub mod money;
pub mod zigzag;
pub mod indicators;
