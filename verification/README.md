# nautilus_calc

Commission models for fills and the bookkeeping of four technical
indicators (moving-average slope, zero-lag EMA, WaveTrend, ZigZag), written in
Verus with their rules stated as contracts and proved.

- `src/decimal.rs`, `src/money.rs`: plain-value models of `rust_decimal`'s
  `Decimal` and `nautilus_model`'s `Currency` and `Money`; the arithmetic and
  the conversions are carried out by those crates, behind small trusted
  wrappers whose contracts say what their sources do.
- `src/fee.rs`: the fee models (fixed, per contract, maker/taker,
  configurable maker/taker, capped option, tiered notional option,
  Polymarket), each with a spec function giving its commission exactly, and
  the laws that relate them.
- `src/zigzag.rs`, `src/indicators.rs`: the integer and window bookkeeping of
  the indicators (bar counting, the swing state machine and lookups, history
  windows, lag and initialization).
- `app/`: the glue to `nautilus_model`'s orders, instruments, prices and bars,
  and the floating-point parts of the indicators.
- `tests/`: scenarios run against the compiled library.
