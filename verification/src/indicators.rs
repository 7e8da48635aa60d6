//! The index, window and state bookkeeping of the moving-average slope, the
//! zero-lag EMA and the WaveTrend oscillator. The averages themselves and the
//! floating-point formulas stay with the caller, which hands in the values it
//! computed (of any type `T`) and reads back which values to combine.

use vstd::prelude::*;
use std::collections::VecDeque;

verus! {

/// A bars-ago position as given to [`MASlope::new`]: a non-negative value is
/// taken as is, a negative one counts back from `ma_period` (the sum taken
/// as `usize`, wrapping like the `as` cast).
pub open spec fn normalize_bars_ago(ma_period: usize, bars_ago: isize) -> usize {
    if bars_ago >= 0 {
        bars_ago as usize
    } else {
        (ma_period as isize + bars_ago) as usize
    }
}

/// `bars_ago` can be normalized without the `isize` sum overflowing.
pub open spec fn normalizable(ma_period: usize, bars_ago: isize) -> bool {
    bars_ago < 0 ==> isize::MIN <= (ma_period as isize) as int + bars_ago as int
}

/// `idx` clamped into `0..n` (0 when `n` is 0).
pub open spec fn clamp_index_spec(idx: usize, n: usize) -> usize {
    if n == 0 {
        0
    } else if idx < n {
        idx
    } else {
        (n - 1) as usize
    }
}

/// The normalized bars-ago position, or `None` when the `isize` sum
/// overflows.
pub fn try_normalize_bars_ago(ma_period: usize, bars_ago: isize) -> (r: Option<usize>)
    ensures
        r == (if normalizable(ma_period, bars_ago) {
            Some(normalize_bars_ago(ma_period, bars_ago))
        } else {
            None
        }),
{
    if bars_ago >= 0 {
        Some(bars_ago as usize)
    } else {
        let period = ma_period as isize;
        if period < isize::MIN - bars_ago {
            None
        } else {
            Some((period + bars_ago) as usize)
        }
    }
}

fn normalize(ma_period: usize, bars_ago: isize) -> (r: usize)
    requires
        normalizable(ma_period, bars_ago),
    ensures
        r == normalize_bars_ago(ma_period, bars_ago),
{
    if bars_ago >= 0 {
        bars_ago as usize
    } else {
        (ma_period as isize + bars_ago) as usize
    }
}

/// The history bookkeeping of the slope of a moving average between two
/// points of its recent values.
#[derive(Debug)]
pub struct MASlope<T> {
    /// The period of the moving average (> 0); also the history length.
    ma_period: usize,
    /// The older point of the slope, in bars ago.
    start_bars_ago: usize,
    /// The newer point of the slope, in bars ago.
    end_bars_ago: usize,
    initialized: bool,
    has_inputs: bool,
    /// The moving average's values, newest first.
    ma_prices: VecDeque<T>,
}

impl<T> MASlope<T> {
    pub closed spec fn ma_period_spec(self) -> usize {
        self.ma_period
    }

    pub closed spec fn start_spec(self) -> usize {
        self.start_bars_ago
    }

    pub closed spec fn end_spec(self) -> usize {
        self.end_bars_ago
    }

    pub closed spec fn initialized_spec(self) -> bool {
        self.initialized
    }

    pub closed spec fn has_inputs_spec(self) -> bool {
        self.has_inputs
    }

    /// The recorded moving-average values, newest first.
    pub closed spec fn ma_prices_spec(self) -> Seq<T> {
        self.ma_prices@
    }

    /// The invariant: a positive period bounding the history, and the start
    /// point older than the end point.
    pub closed spec fn wf(self) -> bool {
        &&& self.ma_period > 0
        &&& self.start_bars_ago > self.end_bars_ago
        &&& self.ma_prices@.len() <= self.ma_period
        &&& self.initialized ==> self.has_inputs
    }

    /// A slope over `ma_period` values between `start_bars_ago` and
    /// `end_bars_ago` (default 0); negative positions count back from
    /// `ma_period`. The period must be positive and the normalized start
    /// greater than the normalized end.
    pub fn new(ma_period: usize, start_bars_ago: isize, end_bars_ago: Option<isize>) -> (s: Self)
        requires
            ma_period > 0,
            normalizable(ma_period, start_bars_ago),
            normalizable(
                ma_period,
                match end_bars_ago {
                    Some(e) => e,
                    None => 0,
                },
            ),
            normalize_bars_ago(ma_period, start_bars_ago) > normalize_bars_ago(
                ma_period,
                match end_bars_ago {
                    Some(e) => e,
                    None => 0,
                },
            ),
        ensures
            s.wf(),
            s.ma_period_spec() == ma_period,
            s.start_spec() == normalize_bars_ago(ma_period, start_bars_ago),
            s.end_spec() == normalize_bars_ago(
                ma_period,
                match end_bars_ago {
                    Some(e) => e,
                    None => 0,
                },
            ),
            !s.initialized_spec(),
            !s.has_inputs_spec(),
            s.ma_prices_spec().len() == 0,
    {
        let start = normalize(ma_period, start_bars_ago);
        let end_value = match end_bars_ago {
            Some(e) => e,
            None => 0,
        };
        let end = normalize(ma_period, end_value);
        MASlope {
            ma_period,
            start_bars_ago: start,
            end_bars_ago: end,
            initialized: false,
            has_inputs: false,
            ma_prices: VecDeque::new(),
        }
    }

    /// `idx` clamped into `0..n` (0 when `n` is 0).
    pub fn clamp_index(&self, idx: usize, n: usize) -> (r: usize)
        ensures
            r == clamp_index_spec(idx, n),
            n > 0 ==> r < n,
    {
        if n == 0 {
            return 0;
        }
        if idx < n - 1 {
            idx
        } else {
            n - 1
        }
    }

    /// Whether a value has been recorded.
    pub fn has_inputs(&self) -> (b: bool)
        ensures
            b == self.has_inputs_spec(),
    {
        self.has_inputs
    }

    /// The period of the moving average.
    pub fn ma_period(&self) -> (r: usize)
        ensures
            r == self.ma_period_spec(),
    {
        self.ma_period
    }

    /// The older point of the slope, in bars ago.
    pub fn start_bars_ago(&self) -> (r: usize)
        ensures
            r == self.start_spec(),
    {
        self.start_bars_ago
    }

    /// The newer point of the slope, in bars ago.
    pub fn end_bars_ago(&self) -> (r: usize)
        ensures
            r == self.end_spec(),
    {
        self.end_bars_ago
    }

    /// Whether the moving average has been initialized.
    pub fn initialized(&self) -> (r: bool)
        ensures
            r == self.initialized_spec(),
    {
        self.initialized
    }

    /// The number of recorded values.
    pub fn len(&self) -> (n: usize)
        ensures
            n == self.ma_prices_spec().len(),
    {
        self.ma_prices.len()
    }

    /// The recorded value `i` bars ago.
    pub fn ma_price(&self, i: usize) -> (v: &T)
        requires
            i < self.ma_prices_spec().len(),
        ensures
            *v == self.ma_prices_spec()[i as int],
    {
        &self.ma_prices[i]
    }

    /// Records the moving average's newest value (dropping the oldest beyond
    /// `ma_period`) and returns the positions, clamped into the history, of
    /// the start and end points of the slope, or `None` when they coincide
    /// (the slope is then 0). The first value marks the indicator as having
    /// inputs; it becomes initialized once the moving average is.
    pub fn update_raw(&mut self, ma_value: T, ma_initialized: bool) -> (points: Option<(usize, usize)>)
        requires
            old(self).wf(),
        ensures
            final(self).wf(),
            final(self).ma_period_spec() == old(self).ma_period_spec(),
            final(self).start_spec() == old(self).start_spec(),
            final(self).end_spec() == old(self).end_spec(),
            final(self).ma_prices_spec() == seq![ma_value].add(old(self).ma_prices_spec()).take(
                if old(self).ma_prices_spec().len() + 1 > old(self).ma_period_spec() {
                    old(self).ma_period_spec() as int
                } else {
                    old(self).ma_prices_spec().len() + 1int
                },
            ),
            ({
                let n = final(self).ma_prices_spec().len() as usize;
                let s = clamp_index_spec(old(self).start_spec(), n);
                let e = clamp_index_spec(old(self).end_spec(), n);
                points == if s == e {
                    None
                } else {
                    Some((s, e))
                }
            }),
            final(self).has_inputs_spec(),
            final(self).initialized_spec() == (old(self).initialized_spec() || ma_initialized),
    {
        let ghost old_prices = self.ma_prices@;
        self.ma_prices.push_front(ma_value);
        if self.ma_prices.len() > self.ma_period {
            self.ma_prices.pop_back();
        }
        proof {
            let full = seq![ma_value].add(old_prices);
            if old_prices.len() + 1 > self.ma_period {
                assert(self.ma_prices@ =~= full.take(self.ma_period as int));
            } else {
                assert(self.ma_prices@ =~= full.take(old_prices.len() + 1int));
            }
        }
        let n = self.ma_prices.len();
        let start_idx = self.clamp_index(self.start_bars_ago, n);
        let end_idx = self.clamp_index(self.end_bars_ago, n);
        if !self.initialized {
            self.has_inputs = true;
            if ma_initialized {
                self.initialized = true;
            }
        }
        if start_idx == end_idx {
            None
        } else {
            Some((start_idx, end_idx))
        }
    }

    /// Forgets every recorded value.
    pub fn reset(&mut self)
        requires
            old(self).wf(),
        ensures
            final(self).wf(),
            final(self).ma_period_spec() == old(self).ma_period_spec(),
            final(self).start_spec() == old(self).start_spec(),
            final(self).end_spec() == old(self).end_spec(),
            final(self).ma_prices_spec().len() == 0,
            !final(self).has_inputs_spec(),
            !final(self).initialized_spec(),
    {
        self.ma_prices.clear();
        self.has_inputs = false;
        self.initialized = false;
    }
}

/// How the zero-lag EMA takes in a value.
#[derive(Clone, Copy, Debug, PartialEq, Eq)]
pub enum ZlemaStep<T> {
    /// The value becomes the average (first input, or too little history).
    Seed,
    /// The average moves toward `2 * value - lagged` with the smoothing
    /// constant, `lagged` being the input `lag` bars back.
    Smooth(T),
}

/// How many inputs a zero-lag EMA with `lag` retains after `count` inputs:
/// all of them up to `lag + 1`.
pub open spec fn retained_len(count: int, lag: int) -> int {
    if count <= lag + 1 {
        count
    } else {
        lag + 1
    }
}

/// The input bookkeeping of the zero-lag exponential moving average.
#[derive(Debug)]
pub struct ZeroLagExponentialMovingAverage<T> {
    /// The period (> 0).
    period: usize,
    /// The lag, `ceil((period - 1) / 2)`.
    lag: usize,
    /// The number of inputs.
    count: usize,
    initialized: bool,
    has_inputs: bool,
    /// The last `lag + 1` inputs, oldest first.
    inputs: Vec<T>,
}

impl<T: Copy> ZeroLagExponentialMovingAverage<T> {
    pub closed spec fn period_spec(self) -> usize {
        self.period
    }

    pub closed spec fn lag_spec(self) -> usize {
        self.lag
    }

    pub closed spec fn count_spec(self) -> usize {
        self.count
    }

    pub closed spec fn initialized_spec(self) -> bool {
        self.initialized
    }

    pub closed spec fn has_inputs_spec(self) -> bool {
        self.has_inputs
    }

    /// The retained inputs, oldest first.
    pub closed spec fn inputs_spec(self) -> Seq<T> {
        self.inputs@
    }

    /// The invariant: the lag of the period, at most `lag + 1` retained
    /// inputs, inputs seen exactly when counted, and initialized exactly
    /// once `period` inputs were counted.
    pub closed spec fn wf(self) -> bool {
        &&& self.period > 0
        &&& self.lag == self.period / 2
        &&& self.inputs@.len() == retained_len(self.count as int, self.lag as int)
        &&& self.has_inputs == (self.count > 0)
        &&& self.initialized == (self.count >= self.period)
    }

    /// A well-formed zero-lag EMA retains its last `lag + 1` inputs (all of
    /// them before that many arrived), is initialized exactly once `period`
    /// inputs were counted, and has inputs exactly once one was counted.
    pub proof fn lemma_retained_inputs(self)
        requires
            self.wf(),
        ensures
            self.inputs_spec().len() == retained_len(
                self.count_spec() as int,
                self.lag_spec() as int,
            ),
            self.initialized_spec() == (self.count_spec() >= self.period_spec()),
            self.has_inputs_spec() == (self.count_spec() > 0),
            self.period_spec() > 0,
            self.lag_spec() == self.period_spec() / 2,
    {
    }

    /// A zero-lag EMA of `period` (> 0); its lag is `ceil((period - 1) / 2)`.
    pub fn new(period: usize) -> (z: Self)
        requires
            period > 0,
        ensures
            z.wf(),
            z.period_spec() == period,
            2 * z.lag_spec() >= period - 1,
            2 * z.lag_spec() <= period,
            z.count_spec() == 0,
            !z.has_inputs_spec(),
            !z.initialized_spec(),
            z.inputs_spec().len() == 0,
    {
        ZeroLagExponentialMovingAverage {
            period,
            lag: period / 2,
            count: 0,
            initialized: false,
            has_inputs: false,
            inputs: Vec::new(),
        }
    }

    /// Whether a value has been taken in.
    pub fn has_inputs(&self) -> (b: bool)
        ensures
            b == self.has_inputs_spec(),
    {
        self.has_inputs
    }

    /// The period.
    pub fn period(&self) -> (r: usize)
        ensures
            r == self.period_spec(),
    {
        self.period
    }

    /// The lag, `ceil((period - 1) / 2)`.
    pub fn lag(&self) -> (r: usize)
        ensures
            r == self.lag_spec(),
    {
        self.lag
    }

    /// The number of inputs.
    pub fn count(&self) -> (r: usize)
        ensures
            r == self.count_spec(),
    {
        self.count
    }

    /// Whether `period` inputs have been counted.
    pub fn initialized(&self) -> (r: bool)
        ensures
            r == self.initialized_spec(),
    {
        self.initialized
    }

    /// Takes in `value`: retains it among the last `lag + 1` inputs, and
    /// says whether it seeds the average (first input, or no more than `lag`
    /// inputs retained) or smooths it against the oldest retained input.
    pub fn update_raw(&mut self, value: T) -> (step: ZlemaStep<T>)
        requires
            old(self).wf(),
            old(self).count_spec() < usize::MAX,
        ensures
            final(self).wf(),
            final(self).period_spec() == old(self).period_spec(),
            final(self).lag_spec() == old(self).lag_spec(),
            final(self).count_spec() == old(self).count_spec() + 1,
            final(self).has_inputs_spec(),
            final(self).initialized_spec() == (final(self).count_spec()
                >= final(self).period_spec()),
            ({
                let pushed = old(self).inputs_spec().push(value);
                let kept = if pushed.len() > old(self).lag_spec() + 1 {
                    pushed.drop_first()
                } else {
                    pushed
                };
                &&& final(self).inputs_spec() == kept
                &&& step == if !old(self).has_inputs_spec() || kept.len() <= old(self).lag_spec() {
                    ZlemaStep::Seed
                } else {
                    ZlemaStep::Smooth(kept[0])
                }
            }),
    {
        let ghost pushed = self.inputs@.push(value);
        self.inputs.push(value);
        if self.inputs.len() > self.lag + 1 {
            self.inputs.remove(0);
            assert(self.inputs@ =~= pushed.drop_first());
        }
        let step = if !self.has_inputs || self.inputs.len() <= self.lag {
            self.has_inputs = true;
            ZlemaStep::Seed
        } else {
            ZlemaStep::Smooth(self.inputs[0])
        };
        self.count = self.count + 1;
        if !self.initialized && self.count >= self.period {
            self.initialized = true;
        }
        step
    }

    /// Forgets every input.
    pub fn reset(&mut self)
        requires
            old(self).wf(),
        ensures
            final(self).wf(),
            final(self).period_spec() == old(self).period_spec(),
            final(self).lag_spec() == old(self).lag_spec(),
            final(self).count_spec() == 0,
            !final(self).has_inputs_spec(),
            !final(self).initialized_spec(),
            final(self).inputs_spec().len() == 0,
    {
        self.count = 0;
        self.has_inputs = false;
        self.initialized = false;
        self.inputs.clear();
    }
}

/// The input and initialization bookkeeping of the WaveTrend oscillator.
#[derive(Clone, Copy, Debug)]
pub struct WaveTrendOscillator {
    /// The channel length of the EMAs (> 0).
    channel_length: usize,
    /// The average length of the TCI EMA (> 0).
    average_length: usize,
    initialized: bool,
    has_inputs: bool,
}

impl WaveTrendOscillator {
    pub closed spec fn channel_length_spec(self) -> usize {
        self.channel_length
    }

    pub closed spec fn average_length_spec(self) -> usize {
        self.average_length
    }

    pub closed spec fn initialized_spec(self) -> bool {
        self.initialized
    }

    pub closed spec fn has_inputs_spec(self) -> bool {
        self.has_inputs
    }

    /// The invariant: positive lengths; initialized only after an input.
    pub closed spec fn wf(self) -> bool {
        &&& self.channel_length > 0
        &&& self.average_length > 0
        &&& self.initialized ==> self.has_inputs
    }

    /// An oscillator with the given (positive) channel and average lengths.
    pub fn new(channel_length: usize, average_length: usize) -> (w: Self)
        requires
            channel_length > 0,
            average_length > 0,
        ensures
            w.wf(),
            w.channel_length_spec() == channel_length,
            w.average_length_spec() == average_length,
            !w.initialized_spec(),
            !w.has_inputs_spec(),
    {
        WaveTrendOscillator { channel_length, average_length, initialized: false, has_inputs: false }
    }

    /// Whether an input has been taken in.
    pub fn has_inputs(&self) -> (b: bool)
        ensures
            b == self.has_inputs_spec(),
    {
        self.has_inputs
    }

    /// The channel length of the EMAs.
    pub fn channel_length(&self) -> (r: usize)
        ensures
            r == self.channel_length_spec(),
    {
        self.channel_length
    }

    /// The average length of the TCI EMA.
    pub fn average_length(&self) -> (r: usize)
        ensures
            r == self.average_length_spec(),
    {
        self.average_length
    }

    /// Whether all four averages have been initialized.
    pub fn initialized(&self) -> (r: bool)
        ensures
            r == self.initialized_spec(),
    {
        self.initialized
    }

    /// Notes an input after which the ESA, the deviation EMA, the TCI EMA and
    /// the slow average report the given initialization; the oscillator is
    /// initialized once all four are.
    pub fn update_raw(
        &mut self,
        esa_initialized: bool,
        d_ema_initialized: bool,
        tci_ema_initialized: bool,
        wt_slow_ma_initialized: bool,
    )
        requires
            old(self).wf(),
        ensures
            final(self).wf(),
            final(self).channel_length_spec() == old(self).channel_length_spec(),
            final(self).average_length_spec() == old(self).average_length_spec(),
            final(self).has_inputs_spec(),
            final(self).initialized_spec() == (old(self).initialized_spec() || (esa_initialized
                && d_ema_initialized && tci_ema_initialized && wt_slow_ma_initialized)),
    {
        if !self.has_inputs {
            self.has_inputs = true;
        }
        if !self.initialized && esa_initialized && d_ema_initialized && tci_ema_initialized
            && wt_slow_ma_initialized {
            self.initialized = true;
        }
    }

    /// Forgets every input.
    pub fn reset(&mut self)
        requires
            old(self).wf(),
        ensures
            final(self).wf(),
            final(self).channel_length_spec() == old(self).channel_length_spec(),
            final(self).average_length_spec() == old(self).average_length_spec(),
            !final(self).has_inputs_spec(),
            !final(self).initialized_spec(),
    {
        self.has_inputs = false;
        self.initialized = false;
    }
}

} // verus!
