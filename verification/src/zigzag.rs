//! The swing bookkeeping of the ZigZag indicator: bar counting, the trend
//! state machine, the bar indices of swing highs and lows, and the swing
//! lookups. Prices stay with the caller, which compares them and hands the
//! outcome of the comparisons in as [`SwingSignals`].

use vstd::prelude::*;

verus! {

/// The outcome of the price comparisons for the middle bar of the last three.
#[derive(Clone, Copy, Debug, PartialEq, Eq)]
pub struct SwingSignals {
    /// The middle bar's high is at least both neighbours' highs.
    pub is_swing_high: bool,
    /// The middle bar's low is at most both neighbours' lows.
    pub is_swing_low: bool,
    /// The middle bar's high is above the last swing price plus the deviation.
    pub over_high_deviation: bool,
    /// The middle bar's low is below the last swing price minus the deviation.
    pub over_low_deviation: bool,
    /// The middle bar's high is above the last swing price.
    pub high_above_last_swing: bool,
    /// The middle bar's low is below the last swing price.
    pub low_below_last_swing: bool,
}

/// The swing decided for the middle bar.
#[derive(Clone, Copy, Debug, PartialEq, Eq)]
pub enum SwingAction {
    /// No swing.
    NoSwing,
    /// A new swing high (the trend turns up).
    AddHigh,
    /// A new swing low (the trend turns down).
    AddLow,
    /// The current up swing extends to a higher high.
    UpdateHigh,
    /// The current down swing extends to a lower low.
    UpdateLow,
}

/// What a swing changed in the recorded swings.
#[derive(Clone, Copy, Debug, PartialEq, Eq)]
pub enum SwingChange {
    /// Nothing changed.
    NoSwing,
    /// A swing high was appended at the middle bar.
    NewHigh,
    /// A swing low was appended at the middle bar.
    NewLow,
    /// The last swing high moved to the middle bar.
    MovedHigh,
    /// The last swing low moved to the middle bar.
    MovedLow,
    /// A higher high was seen with no swing high recorded: only the last
    /// swing moved.
    HighWithoutEntry,
    /// A lower low was seen with no swing low recorded: only the last swing
    /// moved.
    LowWithoutEntry,
}

/// The swing decided for the middle bar and the trend after it, from the
/// trend before it (1 up, -1 down, 0 undecided) and the price comparisons.
pub open spec fn decide_swing_spec(trend: i32, s: SwingSignals) -> (SwingAction, i32) {
    if !s.is_swing_high && !s.is_swing_low {
        (SwingAction::NoSwing, trend)
    } else if trend <= 0 && s.is_swing_high && s.over_high_deviation {
        (SwingAction::AddHigh, 1i32)
    } else if trend >= 0 && s.is_swing_low && s.over_low_deviation {
        (SwingAction::AddLow, -1i32)
    } else if trend == 1 && s.is_swing_high && s.high_above_last_swing {
        (SwingAction::UpdateHigh, trend)
    } else if trend == -1 && s.is_swing_low && s.low_below_last_swing {
        (SwingAction::UpdateLow, trend)
    } else {
        (SwingAction::NoSwing, trend)
    }
}

/// Decides the swing for the middle bar and the trend after it.
pub fn decide_swing(trend: i32, s: SwingSignals) -> (r: (SwingAction, i32))
    ensures
        r == decide_swing_spec(trend, s),
{
    if !s.is_swing_high && !s.is_swing_low {
        (SwingAction::NoSwing, trend)
    } else if trend <= 0 && s.is_swing_high && s.over_high_deviation {
        (SwingAction::AddHigh, 1i32)
    } else if trend >= 0 && s.is_swing_low && s.over_low_deviation {
        (SwingAction::AddLow, -1i32)
    } else if trend == 1 && s.is_swing_high && s.high_above_last_swing {
        (SwingAction::UpdateHigh, trend)
    } else if trend == -1 && s.is_swing_low && s.low_below_last_swing {
        (SwingAction::UpdateLow, trend)
    } else {
        (SwingAction::NoSwing, trend)
    }
}

/// How the swing decision behaves on every trend and every outcome of the
/// price comparisons:
/// - without a swing candidate nothing happens and the trend stays;
/// - a swing high beyond the deviation threshold starts an up trend unless
///   the trend is already up, and a swing low beyond it starts a down trend
///   unless the trend is already down (the high taking precedence);
/// - in an up trend, a swing high above the last swing price extends the
///   swing, whether or not it is beyond the threshold, unless a swing low
///   beyond the threshold turns the trend; in a down trend, a swing low below
///   the last swing price extends the swing likewise;
/// - every decision keeps the trend within -1..=1, and a new or extended
///   swing leaves the trend pointing its way.
pub proof fn lemma_decide_swing_laws(trend: i32, s: SwingSignals)
    requires
        -1 <= trend <= 1,
    ensures
        !s.is_swing_high && !s.is_swing_low ==> decide_swing_spec(trend, s) == (
        SwingAction::NoSwing,
        trend,
        ),
        trend <= 0 && s.is_swing_high && s.over_high_deviation ==> decide_swing_spec(trend, s) == (
        SwingAction::AddHigh,
        1i32,
        ),
        trend >= 0 && s.is_swing_low && s.over_low_deviation && !(trend <= 0 && s.is_swing_high
            && s.over_high_deviation) ==> decide_swing_spec(trend, s) == (SwingAction::AddLow, -1i32),
        trend == 1 && s.is_swing_high && s.high_above_last_swing && !(s.is_swing_low
            && s.over_low_deviation) ==> decide_swing_spec(trend, s) == (SwingAction::UpdateHigh, 1i32),
        trend == -1 && s.is_swing_low && s.low_below_last_swing && !(s.is_swing_high
            && s.over_high_deviation) ==> decide_swing_spec(trend, s) == (SwingAction::UpdateLow, -1i32),
        ({
            let (action, next) = decide_swing_spec(trend, s);
            &&& -1 <= next <= 1
            &&& (action == SwingAction::NoSwing ==> next == trend)
            &&& (action == SwingAction::AddHigh ==> trend <= 0 && next == 1 && s.is_swing_high)
            &&& (action == SwingAction::AddLow ==> trend >= 0 && next == -1 && s.is_swing_low)
            &&& (action == SwingAction::UpdateHigh ==> trend == 1 && next == 1 && s.is_swing_high
                && s.high_above_last_swing)
            &&& (action == SwingAction::UpdateLow ==> trend == -1 && next == -1 && s.is_swing_low
                && s.low_below_last_swing)
        }),
{
}

/// What a decided swing changes, given whether any swing high and any swing
/// low is recorded.
pub open spec fn swing_change_spec(action: SwingAction, has_high: bool, has_low: bool) -> SwingChange {
    match action {
        SwingAction::NoSwing => SwingChange::NoSwing,
        SwingAction::AddHigh => SwingChange::NewHigh,
        SwingAction::AddLow => SwingChange::NewLow,
        SwingAction::UpdateHigh => if has_high {
            SwingChange::MovedHigh
        } else {
            SwingChange::HighWithoutEntry
        },
        SwingAction::UpdateLow => if has_low {
            SwingChange::MovedLow
        } else {
            SwingChange::LowWithoutEntry
        },
    }
}

/// Bar indices recorded for swings: strictly increasing, each a processed
/// bar (between 1 and `count`).
pub open spec fn bars_wf(bars: Seq<i32>, count: int) -> bool {
    &&& forall|i: int, j: int| 0 <= i < j < bars.len() ==> bars[i] < bars[j]
    &&& forall|i: int| 0 <= i < bars.len() ==> 1 <= #[trigger] bars[i] <= count
}

/// The `n`-th most recent bar index of `bars` (1 = the last) that lies in
/// `[lo, hi]`.
pub open spec fn nth_recent_in_window(bars: Seq<i32>, lo: int, hi: int, n: int) -> Option<int>
    decreases bars.len(),
{
    if bars.len() == 0 {
        None
    } else {
        let last = bars.last() as int;
        if lo <= last <= hi {
            if n == 1 {
                Some(last)
            } else {
                nth_recent_in_window(bars.drop_last(), lo, hi, n - 1)
            }
        } else {
            nth_recent_in_window(bars.drop_last(), lo, hi, n)
        }
    }
}

/// How many bars ago the `instance`-th most recent swing in `bars` occurred,
/// searching the `lookback_period` bars before the bar `bars_ago` bars back
/// (inclusive); -1 when there is none or the arguments are out of range.
pub open spec fn swing_bar_spec(
    bars: Seq<i32>,
    count: int,
    bars_ago: int,
    instance: int,
    lookback_period: int,
) -> int {
    if instance < 1 || bars_ago < 0 {
        -1
    } else {
        let target = count - bars_ago - 1;
        match nth_recent_in_window(bars, target - lookback_period, target, instance) {
            Some(b) => count - b,
            None => -1,
        }
    }
}

/// A found swing lies in the window and is one of the recorded bars.
pub proof fn lemma_nth_recent_in_window(bars: Seq<i32>, lo: int, hi: int, n: int)
    ensures
        nth_recent_in_window(bars, lo, hi, n) matches Some(b) ==> lo <= b <= hi && n >= 1
            && exists|i: int| 0 <= i < bars.len() && bars[i] == b,
    decreases bars.len(),
{
    if bars.len() > 0 {
        lemma_nth_recent_in_window(bars.drop_last(), lo, hi, n - 1);
        lemma_nth_recent_in_window(bars.drop_last(), lo, hi, n);
        if let Some(b) = nth_recent_in_window(bars, lo, hi, n) {
            if b != bars.last() {
                let i = choose|i: int| 0 <= i < bars.drop_last().len() && bars.drop_last()[i] == b;
                assert(bars[i] == b);
            } else {
                assert(bars[bars.len() - 1] == b);
            }
        }
    }
}

/// Later instances lie further back: in a strictly increasing sequence of
/// bar indices, when the `m`-th most recent one in a window exists, so does
/// every earlier instance `n < m`, and it is a later bar.
pub proof fn lemma_nth_recent_ordered(bars: Seq<i32>, lo: int, hi: int, n: int, m: int)
    requires
        forall|i: int, j: int| 0 <= i < j < bars.len() ==> bars[i] < bars[j],
        1 <= n < m,
        nth_recent_in_window(bars, lo, hi, m) is Some,
    ensures
        nth_recent_in_window(bars, lo, hi, n) matches Some(bn) && bn
            > nth_recent_in_window(bars, lo, hi, m).unwrap(),
    decreases bars.len(),
{
    let d = bars.drop_last();
    let last = bars.last() as int;
    assert forall|i: int, j: int| 0 <= i < j < d.len() implies d[i] < d[j] by {
        assert(d[i] == bars[i] && d[j] == bars[j]);
    }
    if lo <= last <= hi {
        if n == 1 {
            lemma_nth_recent_in_window(d, lo, hi, m - 1);
            let bm = nth_recent_in_window(d, lo, hi, m - 1).unwrap();
            let k = choose|k: int| 0 <= k < d.len() && d[k] == bm;
            assert(bars[k] == bm && k < bars.len() - 1);
        } else {
            lemma_nth_recent_ordered(d, lo, hi, n - 1, m - 1);
        }
    } else {
        lemma_nth_recent_ordered(d, lo, hi, n, m);
    }
}

/// The swing lookups of [`ZigZag::high_bar`] and [`ZigZag::low_bar`] answer
/// -1 or a number of bars ago inside the searched window, and a later
/// instance (when found) lies strictly further back than an earlier one.
pub proof fn lemma_swing_bar_laws(
    bars: Seq<i32>,
    count: int,
    bars_ago: int,
    n: int,
    m: int,
    lookback_period: int,
)
    requires
        bars_wf(bars, count),
        1 <= n < m,
    ensures
        swing_bar_spec(bars, count, bars_ago, n, lookback_period) == -1 || bars_ago + 1
            <= swing_bar_spec(bars, count, bars_ago, n, lookback_period) <= bars_ago + 1
            + lookback_period,
        swing_bar_spec(bars, count, bars_ago, m, lookback_period) != -1 ==> swing_bar_spec(
            bars,
            count,
            bars_ago,
            n,
            lookback_period,
        ) != -1 && swing_bar_spec(bars, count, bars_ago, n, lookback_period) < swing_bar_spec(
            bars,
            count,
            bars_ago,
            m,
            lookback_period,
        ),
{
    let target = count - bars_ago - 1;
    let lo = target - lookback_period;
    lemma_nth_recent_in_window(bars, lo, target, n);
    lemma_nth_recent_in_window(bars, lo, target, m);
    if bars_ago >= 0 {
        if let Some(bn) = nth_recent_in_window(bars, lo, target, n) {
            let k = choose|k: int| 0 <= k < bars.len() && bars[k] == bn;
            assert(1 <= bars[k] <= count);
        }
        if let Some(bm) = nth_recent_in_window(bars, lo, target, m) {
            let k = choose|k: int| 0 <= k < bars.len() && bars[k] == bm;
            assert(1 <= bars[k] <= count);
            lemma_nth_recent_ordered(bars, lo, target, n, m);
        }
    }
}

/// Searches `bars` from the most recent for the `instance`-th swing in the
/// window and returns how many bars ago it occurred, or -1.
fn swing_bar(bars: &Vec<i32>, count: i32, bars_ago: i32, instance: i32, lookback_period: i32) -> (r:
    i32)
    requires
        0 <= count,
        bars_wf(bars@, count as int),
    ensures
        r == swing_bar_spec(bars@, count as int, bars_ago as int, instance as int, lookback_period as int),
{
    if instance < 1 || bars_ago < 0 {
        return -1;
    }
    let target_bar: i64 = count as i64 - bars_ago as i64 - 1;
    let lowest: i64 = target_bar - lookback_period as i64;
    assert(target_bar as int == count as int - bars_ago as int - 1);
    assert(lowest as int == target_bar as int - lookback_period as int);
    let ghost goal = nth_recent_in_window(bars@, lowest as int, target_bar as int, instance as int);
    let mut found: i32 = 0;
    let mut i: usize = bars.len();
    assert(bars@.subrange(0, i as int) =~= bars@);
    while i > 0
        invariant
            i <= bars@.len(),
            0 <= found < instance,
            bars_ago >= 0,
            0 <= count,
            target_bar as int == count as int - bars_ago as int - 1,
            lowest as int == target_bar as int - lookback_period as int,
            bars_wf(bars@, count as int),
            nth_recent_in_window(bars@.subrange(0, i as int), lowest as int, target_bar as int, (instance
                - found) as int) == goal,
            goal == nth_recent_in_window(bars@, lowest as int, target_bar as int, instance as int),
        decreases i,
    {
        let bar_idx = bars[i - 1];
        let ghost sub = bars@.subrange(0, i as int);
        assert(sub.drop_last() =~= bars@.subrange(0, i - 1));
        assert(sub.last() == bar_idx);
        let ghost n = (instance - found) as int;
        if bar_idx as i64 <= target_bar && bar_idx as i64 >= lowest {
            assert(nth_recent_in_window(sub, lowest as int, target_bar as int, n) == if n == 1 {
                Some(bar_idx as int)
            } else {
                nth_recent_in_window(sub.drop_last(), lowest as int, target_bar as int, n - 1)
            });
            found = found + 1;
            if found == instance {
                assert(1 <= bar_idx <= count);
                assert(goal == Some(bar_idx as int));
                return count - bar_idx;
            }
        } else {
            assert(nth_recent_in_window(sub, lowest as int, target_bar as int, n)
                == nth_recent_in_window(sub.drop_last(), lowest as int, target_bar as int, n));
        }
        i = i - 1;
    }
    assert(bars@.subrange(0, 0).len() == 0);
    -1
}

/// `first` and `second` interleave, `first` leading: `first[0] < second[0] <
/// first[1] < second[1] < ...`, with `second` as long as `first` or one
/// shorter.
pub open spec fn interleaved(first: Seq<i32>, second: Seq<i32>) -> bool {
    &&& (second.len() == first.len() || second.len() + 1 == first.len())
    &&& forall|i: int| 0 <= i < second.len() ==> first[i] < #[trigger] second[i]
    &&& forall|i: int| 0 <= i < second.len() && i + 1 < first.len() ==> #[trigger] second[i]
        < first[i + 1]
}

/// Swings of one kind (`last`) and the other (`other`) alternate in bar
/// order, and the most recent swing of all is of the kind `last`.
pub open spec fn ends_with(last: Seq<i32>, other: Seq<i32>) -> bool {
    &&& last.len() > 0
    &&& (last.len() == other.len() + 1 && interleaved(last, other)) || (other.len() == last.len()
        && interleaved(other, last))
}

/// The swing highs and lows alternate in bar order, the most recent one
/// being a high in an up trend and a low in a down trend; with no trend yet
/// there is no swing at all.
pub open spec fn swings_alternate(highs: Seq<i32>, lows: Seq<i32>, trend: i32) -> bool {
    if trend == 0 {
        highs.len() == 0 && lows.len() == 0
    } else if trend == 1 {
        ends_with(highs, lows)
    } else {
        ends_with(lows, highs)
    }
}

/// Appending a later swing of the kind `x` to swings that were empty or ended
/// with the other kind makes them end with `x`.
proof fn lemma_push_alternates(x: Seq<i32>, y: Seq<i32>, m: i32)
    requires
        (x.len() == 0 && y.len() == 0) || ends_with(y, x),
        forall|i: int| 0 <= i < x.len() ==> #[trigger] x[i] < m,
        forall|i: int| 0 <= i < y.len() ==> #[trigger] y[i] < m,
    ensures
        ends_with(x.push(m), y),
{
    let x2 = x.push(m);
    if x.len() == 0 && y.len() == 0 {
        assert(interleaved(x2, y));
    } else if y.len() == x.len() + 1 && interleaved(y, x) {
        assert forall|i: int| 0 <= i < x2.len() implies y[i] < #[trigger] x2[i] by {
            if i < x.len() {
                assert(x2[i] == x[i]);
            }
        }
        assert forall|i: int| 0 <= i < x2.len() && i + 1 < y.len() implies #[trigger] x2[i]
            < y[i + 1] by {
            assert(x2[i] == x[i]);
        }
        assert(interleaved(y, x2));
    } else {
        assert(x.len() == y.len() && interleaved(x, y));
        assert forall|i: int| 0 <= i < y.len() implies x2[i] < #[trigger] y[i] by {
            assert(x2[i] == x[i]);
        }
        assert forall|i: int| 0 <= i < y.len() && i + 1 < x2.len() implies #[trigger] y[i]
            < x2[i + 1] by {
            if i + 1 < x.len() {
                assert(x2[i + 1] == x[i + 1]);
            }
        }
        assert(interleaved(x2, y));
    }
}

/// Moving the most recent swing, of the kind `x`, to a later bar keeps the
/// swings alternating and ending with `x`.
proof fn lemma_move_alternates(x: Seq<i32>, y: Seq<i32>, m: i32)
    requires
        ends_with(x, y),
        forall|i: int| 0 <= i < x.len() ==> #[trigger] x[i] < m,
        forall|i: int| 0 <= i < y.len() ==> #[trigger] y[i] < m,
    ensures
        ends_with(x.update(x.len() - 1, m), y),
{
    let x2 = x.update(x.len() - 1, m);
    if x.len() == y.len() + 1 && interleaved(x, y) {
        assert forall|i: int| 0 <= i < y.len() implies x2[i] < #[trigger] y[i] by {
            assert(x2[i] == x[i]);
        }
        assert forall|i: int| 0 <= i < y.len() && i + 1 < x2.len() implies #[trigger] y[i]
            < x2[i + 1] by {
            if i + 1 < x.len() - 1 {
                assert(x2[i + 1] == x[i + 1]);
            }
        }
        assert(interleaved(x2, y));
    } else {
        assert(y.len() == x.len() && interleaved(y, x));
        assert forall|i: int| 0 <= i < x2.len() implies y[i] < #[trigger] x2[i] by {
            if i < x.len() - 1 {
                assert(x2[i] == x[i]);
            }
        }
        assert forall|i: int| 0 <= i < x2.len() && i + 1 < y.len() implies #[trigger] x2[i]
            < y[i + 1] by {
            assert(x2[i] == x[i]);
        }
        assert(interleaved(y, x2));
    }
}

/// The swing bookkeeping of a ZigZag indicator.
#[derive(Debug)]
pub struct ZigZag {
    /// Current trend direction: 1 up, -1 down, 0 undecided.
    trend_direction: i32,
    /// Bar index of the most recent swing, -1 before the first.
    last_swing_idx: i32,
    /// Number of bars processed.
    count: i32,
    /// A swing has been recorded.
    initialized: bool,
    has_inputs: bool,
    high_bars: Vec<i32>,
    low_bars: Vec<i32>,
    /// Bar indices of the last (at most three) bars, oldest first.
    history: Vec<i32>,
    /// The last bar completed a window of three whose swing is still to be
    /// applied.
    swing_pending: bool,
}

impl ZigZag {
    pub closed spec fn has_inputs_spec(self) -> bool {
        self.has_inputs
    }

    /// Bar indices of the swing highs, oldest first.
    pub closed spec fn high_bars_spec(self) -> Seq<i32> {
        self.high_bars@
    }

    /// Bar indices of the swing lows, oldest first.
    pub closed spec fn low_bars_spec(self) -> Seq<i32> {
        self.low_bars@
    }

    /// Bar indices of the last (at most three) bars, oldest first.
    pub closed spec fn history_spec(self) -> Seq<i32> {
        self.history@
    }

    /// The swing of the last bar's window is still to be applied.
    pub closed spec fn swing_pending(self) -> bool {
        self.swing_pending
    }

    pub closed spec fn count_spec(self) -> i32 {
        self.count
    }

    pub closed spec fn trend_spec(self) -> i32 {
        self.trend_direction
    }

    pub closed spec fn last_swing_idx_spec(self) -> i32 {
        self.last_swing_idx
    }

    pub closed spec fn initialized_spec(self) -> bool {
        self.initialized
    }

    /// The indicator's invariant.
    pub closed spec fn wf(self) -> bool {
        &&& 0 <= self.count
        &&& -1 <= self.trend_direction <= 1
        &&& self.has_inputs == (self.count > 0)
        &&& bars_wf(self.high_bars@, self.count - 1)
        &&& bars_wf(self.low_bars@, self.count - 1)
        &&& (self.swing_pending ==> bars_wf(self.high_bars@, self.count - 2) && bars_wf(
            self.low_bars@,
            self.count - 2,
        ) && self.history@.len() == 3 && self.last_swing_idx < self.count - 1)
        &&& self.history@.len() == (if self.count >= 3 {
            3
        } else {
            self.count as int
        })
        &&& forall|k: int|
            0 <= k < self.history@.len() ==> #[trigger] self.history@[k] == self.count
                - self.history@.len() + 1 + k
        &&& self.initialized == (self.last_swing_idx != -1)
        &&& (self.last_swing_idx != -1 ==> 1 <= self.last_swing_idx <= self.count - 1)
        &&& swings_alternate(self.high_bars@, self.low_bars@, self.trend_direction)
        &&& forall|i: int| 0 <= i < self.high_bars@.len() ==> 2 <= #[trigger] self.high_bars@[i]
        &&& forall|i: int| 0 <= i < self.low_bars@.len() ==> 2 <= #[trigger] self.low_bars@[i]
        &&& self.initialized == (self.trend_direction != 0)
        &&& (self.trend_direction == 1 ==> self.last_swing_idx == self.high_bars@.last())
        &&& (self.trend_direction == -1 ==> self.last_swing_idx == self.low_bars@.last())
    }

    /// The state before any bar: no bars, no swings, undecided trend.
    pub open spec fn is_initial(self) -> bool {
        &&& self.count_spec() == 0
        &&& self.trend_spec() == 0
        &&& self.last_swing_idx_spec() == -1
        &&& !self.initialized_spec()
        &&& !self.has_inputs_spec()
        &&& self.high_bars_spec().len() == 0
        &&& self.low_bars_spec().len() == 0
        &&& self.history_spec().len() == 0
        &&& !self.swing_pending()
    }

    /// The recorded swings of a well-formed indicator: strictly increasing
    /// indices of processed bars from the second to the one before the last
    /// (a swing is always the middle bar of three), highs and lows
    /// alternating in bar order. The indicator is initialized exactly when
    /// there is a trend, exactly when a swing is recorded, and the last swing
    /// is then the most recent high (up trend) or low (down trend).
    pub proof fn lemma_recorded_swings(self)
        requires
            self.wf(),
        ensures
            bars_wf(self.high_bars_spec(), self.count_spec() - 1),
            bars_wf(self.low_bars_spec(), self.count_spec() - 1),
            forall|i: int|
                0 <= i < self.high_bars_spec().len() ==> 2 <= #[trigger] self.high_bars_spec()[i],
            forall|i: int|
                0 <= i < self.low_bars_spec().len() ==> 2 <= #[trigger] self.low_bars_spec()[i],
            swings_alternate(self.high_bars_spec(), self.low_bars_spec(), self.trend_spec()),
            -1 <= self.trend_spec() <= 1,
            self.initialized_spec() <==> self.trend_spec() != 0,
            self.initialized_spec() <==> (self.high_bars_spec().len() > 0
                || self.low_bars_spec().len() > 0),
            self.initialized_spec() <==> self.last_swing_idx_spec() != -1,
            self.last_swing_idx_spec() != -1 ==> 2 <= self.last_swing_idx_spec()
                < self.count_spec(),
            self.trend_spec() == 1 ==> self.last_swing_idx_spec()
                == self.high_bars_spec().last(),
            self.trend_spec() == -1 ==> self.last_swing_idx_spec()
                == self.low_bars_spec().last(),
    {
        if self.trend_direction == 1 {
            assert(self.high_bars@.len() > 0);
            assert(2 <= self.high_bars@[self.high_bars@.len() - 1]);
        } else if self.trend_direction == -1 {
            assert(self.low_bars@.len() > 0);
            assert(2 <= self.low_bars@[self.low_bars@.len() - 1]);
        }
    }

    /// Number of bars processed.
    pub fn count(&self) -> (c: i32)
        ensures
            c == self.count_spec(),
    {
        self.count
    }

    /// Current trend direction: 1 up, -1 down, 0 undecided.
    pub fn trend_direction(&self) -> (t: i32)
        ensures
            t == self.trend_spec(),
    {
        self.trend_direction
    }

    /// Bar index of the most recent swing, -1 before the first.
    pub fn last_swing_idx(&self) -> (i: i32)
        ensures
            i == self.last_swing_idx_spec(),
    {
        self.last_swing_idx
    }

    /// Whether a swing has been recorded.
    pub fn initialized(&self) -> (b: bool)
        ensures
            b == self.initialized_spec(),
    {
        self.initialized
    }

    /// A fresh indicator.
    pub fn new() -> (z: ZigZag)
        ensures
            z.wf(),
            z.is_initial(),
    {
        ZigZag {
            trend_direction: 0,
            last_swing_idx: -1,
            count: 0,
            initialized: false,
            has_inputs: false,
            high_bars: Vec::new(),
            low_bars: Vec::new(),
            history: Vec::new(),
            swing_pending: false,
        }
    }

    /// Whether a bar has been processed.
    pub fn has_inputs(&self) -> (b: bool)
        ensures
            b == self.has_inputs_spec(),
    {
        self.has_inputs
    }

    /// Forgets every bar and swing.
    pub fn reset(&mut self)
        ensures
            final(self).wf(),
            final(self).is_initial(),
    {
        self.high_bars.clear();
        self.low_bars.clear();
        self.history.clear();
        self.trend_direction = 0;
        self.last_swing_idx = -1;
        self.count = 0;
        self.has_inputs = false;
        self.initialized = false;
        self.swing_pending = false;
    }

    /// Bar indices of the swing highs, oldest first.
    pub fn get_high_bars(&self) -> (v: Vec<i32>)
        ensures
            v@ == self.high_bars_spec(),
    {
        self.high_bars.clone()
    }

    /// Bar indices of the swing lows, oldest first.
    pub fn get_low_bars(&self) -> (v: Vec<i32>)
        ensures
            v@ == self.low_bars_spec(),
    {
        self.low_bars.clone()
    }

    /// How many bars ago the `instance`-th most recent swing high (1 = the
    /// most recent) occurred, searching from `bars_ago` bars back over the
    /// preceding `lookback_period` bars; -1 when there is none or
    /// `instance < 1` or `bars_ago < 0`.
    pub fn high_bar(&self, bars_ago: i32, instance: i32, lookback_period: i32) -> (r: i32)
        requires
            self.wf(),
        ensures
            r == swing_bar_spec(
                self.high_bars_spec(),
                self.count_spec() as int,
                bars_ago as int,
                instance as int,
                lookback_period as int,
            ),
            r == -1 || bars_ago + 1 <= r <= bars_ago + 1 + lookback_period,
    {
        proof {
            if instance >= 1 {
                lemma_swing_bar_laws(
                    self.high_bars@,
                    self.count as int,
                    bars_ago as int,
                    instance as int,
                    instance + 1,
                    lookback_period as int,
                );
            }
        }
        swing_bar(&self.high_bars, self.count, bars_ago, instance, lookback_period)
    }

    /// How many bars ago the `instance`-th most recent swing low (1 = the
    /// most recent) occurred, searching from `bars_ago` bars back over the
    /// preceding `lookback_period` bars; -1 when there is none or
    /// `instance < 1` or `bars_ago < 0`.
    pub fn low_bar(&self, bars_ago: i32, instance: i32, lookback_period: i32) -> (r: i32)
        requires
            self.wf(),
        ensures
            r == swing_bar_spec(
                self.low_bars_spec(),
                self.count_spec() as int,
                bars_ago as int,
                instance as int,
                lookback_period as int,
            ),
            r == -1 || bars_ago + 1 <= r <= bars_ago + 1 + lookback_period,
    {
        proof {
            if instance >= 1 {
                lemma_swing_bar_laws(
                    self.low_bars@,
                    self.count as int,
                    bars_ago as int,
                    instance as int,
                    instance + 1,
                    lookback_period as int,
                );
            }
        }
        swing_bar(&self.low_bars, self.count, bars_ago, instance, lookback_period)
    }

    /// Records a new bar: counts it and keeps the last three bar indices.
    /// Returns whether three bars are now known, so that the swing of the
    /// middle one is to be applied next.
    pub fn record_bar(&mut self) -> (ready: bool)
        requires
            old(self).wf(),
            old(self).count_spec() < i32::MAX,
        ensures
            final(self).wf(),
            final(self).count_spec() == old(self).count_spec() + 1,
            final(self).has_inputs_spec(),
            ready == (final(self).count_spec() >= 3),
            final(self).swing_pending() == ready,
            final(self).history_spec() == (if old(self).history_spec().len() == 3 {
                old(self).history_spec().drop_first().push(final(self).count_spec())
            } else {
                old(self).history_spec().push(final(self).count_spec())
            }),
            final(self).high_bars_spec() == old(self).high_bars_spec(),
            final(self).low_bars_spec() == old(self).low_bars_spec(),
            final(self).trend_spec() == old(self).trend_spec(),
            final(self).last_swing_idx_spec() == old(self).last_swing_idx_spec(),
            final(self).initialized_spec() == old(self).initialized_spec(),
    {
        let ghost old_h = self.history@;
        let ghost old_count = self.count as int;
        self.count = self.count + 1;
        self.history.push(self.count);
        if self.history.len() > 3 {
            self.history.remove(0);
        }
        if !self.has_inputs {
            self.has_inputs = true;
        }
        let ready = self.history.len() >= 3;
        self.swing_pending = ready;
        proof {
            let h = self.history@;
            let c = self.count as int;
            assert(c == old_count + 1);
            if old_h.len() == 3 {
                assert(h =~= old_h.drop_first().push(self.count));
                assert forall|k: int| 0 <= k < h.len() implies #[trigger] h[k] == c - h.len() + 1 + k by {
                    if k < 2 {
                        assert(h[k] == old_h[k + 1]);
                    }
                }
            } else {
                assert(h =~= old_h.push(self.count));
                assert forall|k: int| 0 <= k < h.len() implies #[trigger] h[k] == c - h.len() + 1 + k by {
                    if k < old_h.len() {
                        assert(h[k] == old_h[k]);
                    }
                }
            }
            assert(ready == (c >= 3));
        }
        ready
    }

    /// Applies the swing of the middle bar of the last three, decided from
    /// the trend and `signals`: a new swing appends the middle bar's index,
    /// an extended swing moves the last recorded one there, and any swing
    /// makes the middle bar the last swing and the indicator initialized.
    pub fn apply_swing(&mut self, signals: SwingSignals) -> (change: SwingChange)
        requires
            old(self).wf(),
            old(self).swing_pending(),
        ensures
            final(self).wf(),
            !final(self).swing_pending(),
            final(self).count_spec() == old(self).count_spec(),
            final(self).history_spec() == old(self).history_spec(),
            final(self).has_inputs_spec() == old(self).has_inputs_spec(),
            change != SwingChange::HighWithoutEntry && change != SwingChange::LowWithoutEntry,
            ({
                let (action, trend) = decide_swing_spec(old(self).trend_spec(), signals);
                let mid = (old(self).count_spec() - 1) as i32;
                let highs = old(self).high_bars_spec();
                let lows = old(self).low_bars_spec();
                &&& final(self).trend_spec() == trend
                &&& change == swing_change_spec(action, highs.len() > 0, lows.len() > 0)
                &&& final(self).high_bars_spec() == match change {
                    SwingChange::NewHigh => highs.push(mid),
                    SwingChange::MovedHigh => highs.update(highs.len() - 1, mid),
                    _ => highs,
                }
                &&& final(self).low_bars_spec() == match change {
                    SwingChange::NewLow => lows.push(mid),
                    SwingChange::MovedLow => lows.update(lows.len() - 1, mid),
                    _ => lows,
                }
                &&& action != SwingAction::NoSwing ==> final(self).last_swing_idx_spec() == mid
                    && final(self).initialized_spec()
                &&& action == SwingAction::NoSwing ==> final(self).last_swing_idx_spec()
                    == old(self).last_swing_idx_spec() && final(self).initialized_spec()
                    == old(self).initialized_spec()
            }),
    {
        self.swing_pending = false;
        let mid = self.history[1];
        assert(mid == self.count - 1);
        let ghost old_trend = self.trend_direction;
        let (action, trend) = decide_swing(self.trend_direction, signals);
        self.trend_direction = trend;
        let ghost highs = self.high_bars@;
        let ghost lows = self.low_bars@;
        proof {
            assert(forall|i: int| 0 <= i < highs.len() ==> #[trigger] highs[i] < mid);
            assert(forall|i: int| 0 <= i < lows.len() ==> #[trigger] lows[i] < mid);
            assert(swings_alternate(highs, lows, old_trend));
        }
        let change = match action {
            SwingAction::NoSwing => {
                return SwingChange::NoSwing;
            },
            SwingAction::AddHigh => {
                self.high_bars.push(mid);
                SwingChange::NewHigh
            },
            SwingAction::AddLow => {
                self.low_bars.push(mid);
                SwingChange::NewLow
            },
            SwingAction::UpdateHigh => {
                if self.high_bars.len() > 0 {
                    let last = self.high_bars.len() - 1;
                    self.high_bars.set(last, mid);
                    SwingChange::MovedHigh
                } else {
                    SwingChange::HighWithoutEntry
                }
            },
            SwingAction::UpdateLow => {
                if self.low_bars.len() > 0 {
                    let last = self.low_bars.len() - 1;
                    self.low_bars.set(last, mid);
                    SwingChange::MovedLow
                } else {
                    SwingChange::LowWithoutEntry
                }
            },
        };
        self.last_swing_idx = mid;
        if !self.initialized {
            self.initialized = true;
        }
        proof {
            match change {
                SwingChange::NewHigh => lemma_push_alternates(highs, lows, mid),
                SwingChange::NewLow => lemma_push_alternates(lows, highs, mid),
                SwingChange::MovedHigh => lemma_move_alternates(highs, lows, mid),
                SwingChange::MovedLow => lemma_move_alternates(lows, highs, mid),
                _ => {},
            }
            let c = self.count as int;
            assert(bars_wf(self.high_bars@, c - 1)) by {
                assert forall|i: int| 0 <= i < self.high_bars@.len() implies 1 <= #[trigger] self.high_bars@[i] <= c - 1 by {
                    if i < highs.len() && self.high_bars@[i] == highs[i] {
                    }
                }
                assert forall|i: int, j: int| 0 <= i < j < self.high_bars@.len() implies self.high_bars@[i] < self.high_bars@[j] by {
                    if j < highs.len() && self.high_bars@[j] == highs[j] {
                    }
                }
            }
            assert(bars_wf(self.low_bars@, c - 1)) by {
                assert forall|i: int| 0 <= i < self.low_bars@.len() implies 1 <= #[trigger] self.low_bars@[i] <= c - 1 by {
                    if i < lows.len() && self.low_bars@[i] == lows[i] {
                    }
                }
                assert forall|i: int, j: int| 0 <= i < j < self.low_bars@.len() implies self.low_bars@[i] < self.low_bars@[j] by {
                    if j < lows.len() && self.low_bars@[j] == lows[j] {
                    }
                }
            }
        }
        change
    }
}

} // verus!
