//! The score worm: where each scoring event lies on a whole-match time axis.
//!
//! Each period's length is the longest of the match clock's elapsed seconds
//! for it, the latest scoring event seen in it, and a nominal quarter length;
//! period boundaries accumulate those lengths.

use vstd::prelude::*;
use crate::models::{MatchClock, Period, ScoringEvent};

verus! {

/// Fallback quarter length (seconds) before the clock tells us the real one:
/// 20 minutes plus typical time-on.
pub const NOMINAL_PERIOD_SECS: i64 = 2000;

pub open spec fn max_int(a: int, b: int) -> int {
    if a >= b { a } else { b }
}

/// The periods of an optional match clock.
pub open spec fn clock_periods(clock: Option<&MatchClock>) -> Seq<Period> {
    match clock {
        Some(c) => c.periods@,
        None => Seq::empty(),
    }
}

/// The largest period number among the events from index `i` on (0 if none).
pub open spec fn events_max_period_from(events: Seq<ScoringEvent>, i: int) -> int
    decreases events.len() - i,
{
    if i < 0 || i >= events.len() {
        0
    } else {
        max_int(events[i].period_number as int, events_max_period_from(events, i + 1))
    }
}

/// The largest period number among the clock's periods from index `i` on.
pub open spec fn clock_max_period_from(periods: Seq<Period>, i: int) -> int
    decreases periods.len() - i,
{
    if i < 0 || i >= periods.len() {
        0
    } else {
        max_int(periods[i].period_number as int, clock_max_period_from(periods, i + 1))
    }
}

/// The last period that the events or the clock mention, and at least 1.
pub open spec fn last_period(events: Seq<ScoringEvent>, periods: Seq<Period>) -> int {
    max_int(1, max_int(events_max_period_from(events, 0), clock_max_period_from(periods, 0)))
}

/// The elapsed seconds the clock reports for period `p`: those of the first
/// entry numbered `p` at or after index `i`, or 0.
pub open spec fn clock_seconds_from(periods: Seq<Period>, p: int, i: int) -> int
    decreases periods.len() - i,
{
    if i < 0 || i >= periods.len() {
        0
    } else if periods[i].period_number == p {
        periods[i].period_seconds as int
    } else {
        clock_seconds_from(periods, p, i + 1)
    }
}

/// The latest seconds-into-period of the events placed in period `p` (see
/// [`placed_period`]) at or after index `i`, and at least 0.
pub open spec fn event_seconds_from(events: Seq<ScoringEvent>, p: int, i: int) -> int
    decreases events.len() - i,
{
    if i < 0 || i >= events.len() {
        0
    } else if placed_period(events[i]) == p {
        max_int(events[i].period_seconds as int, event_seconds_from(events, p, i + 1))
    } else {
        event_seconds_from(events, p, i + 1)
    }
}

/// The length given to period `p` on the worm's time axis.
pub open spec fn period_length(events: Seq<ScoringEvent>, periods: Seq<Period>, p: int) -> int {
    max_int(
        max_int(clock_seconds_from(periods, p, 0), event_seconds_from(events, p, 0)),
        NOMINAL_PERIOD_SECS as int,
    )
}

/// The start of period `k + 1`: the sum of the lengths of periods 1 to `k`.
pub open spec fn period_bound(events: Seq<ScoringEvent>, periods: Seq<Period>, k: int) -> int
    decreases k,
{
    if k <= 0 {
        0
    } else {
        period_bound(events, periods, k - 1) + period_length(events, periods, k)
    }
}

/// The period an event is placed in: its own, with period 0 read as period 1.
pub open spec fn placed_period(e: ScoringEvent) -> int {
    if e.period_number >= 1 { e.period_number as int } else { 1 }
}

/// The x position of an event on the worm: its period's start plus its
/// seconds into the period.
pub open spec fn worm_x(events: Seq<ScoringEvent>, periods: Seq<Period>, e: ScoringEvent) -> int {
    period_bound(events, periods, placed_period(e) - 1) + e.period_seconds
}

/// The boundaries fit in an `i64` when the last one does.
pub open spec fn bounds_fit(events: Seq<ScoringEvent>, periods: Seq<Period>) -> bool {
    period_bound(events, periods, last_period(events, periods)) <= i64::MAX
}

/// Every point of the worm fits in an `i64`.
pub open spec fn worm_fits(events: Seq<ScoringEvent>, periods: Seq<Period>) -> bool {
    &&& bounds_fit(events, periods)
    &&& forall|i: int| 0 <= i < events.len() ==> {
        &&& i64::MIN <= #[trigger] worm_x(events, periods, events[i]) <= i64::MAX
        &&& i64::MIN <= events[i].aggregate_home_score - events[i].aggregate_away_score <= i64::MAX
    }
}

proof fn lemma_period_length_positive(events: Seq<ScoringEvent>, periods: Seq<Period>, p: int)
    ensures
        period_length(events, periods, p) >= NOMINAL_PERIOD_SECS,
{
}

proof fn lemma_bound_nonneg(events: Seq<ScoringEvent>, periods: Seq<Period>, k: int)
    ensures
        0 <= period_bound(events, periods, k),
    decreases k,
{
    if k > 0 {
        lemma_bound_nonneg(events, periods, k - 1);
        lemma_period_length_positive(events, periods, k);
    }
}

/// Boundaries grow with the period number.
pub proof fn lemma_bound_monotone(events: Seq<ScoringEvent>, periods: Seq<Period>, j: int, k: int)
    requires
        j <= k,
    ensures
        period_bound(events, periods, j) <= period_bound(events, periods, k),
        0 <= period_bound(events, periods, k),
    decreases k - j,
{
    lemma_bound_nonneg(events, periods, k);
    if j < k {
        lemma_bound_monotone(events, periods, j, k - 1);
        lemma_period_length_positive(events, periods, k);
    }
}

proof fn lemma_event_seconds_nonneg(events: Seq<ScoringEvent>, p: int, i: int)
    ensures
        0 <= event_seconds_from(events, p, i),
    decreases events.len() - i,
{
    if 0 <= i < events.len() {
        lemma_event_seconds_nonneg(events, p, i + 1);
    }
}

proof fn lemma_event_seconds_cover(events: Seq<ScoringEvent>, p: int, i: int, j: int)
    requires
        0 <= i <= j < events.len(),
        placed_period(events[j]) == p,
    ensures
        events[j].period_seconds <= event_seconds_from(events, p, i),
    decreases j - i,
{
    if i < j {
        lemma_event_seconds_cover(events, p, i + 1, j);
    }
}

proof fn lemma_event_period_at_most_last(events: Seq<ScoringEvent>, i: int, j: int)
    requires
        0 <= i <= j < events.len(),
    ensures
        events[j].period_number <= events_max_period_from(events, i),
    decreases j - i,
{
    if i < j {
        lemma_event_period_at_most_last(events, i + 1, j);
    }
}

/// Every worm point lies within the boundaries: no further right than the
/// end of the period it is placed in, and so of the last period; and, when
/// its seconds are not negative, no further left than that period's start,
/// and so than the start of the axis.
pub proof fn lemma_worm_point_within_bounds(events: Seq<ScoringEvent>, periods: Seq<Period>, i: int)
    requires
        0 <= i < events.len(),
    ensures
        1 <= placed_period(events[i]) <= last_period(events, periods),
        worm_x(events, periods, events[i]) <= period_bound(events, periods, placed_period(events[i])),
        worm_x(events, periods, events[i]) <= period_bound(events, periods, last_period(events, periods)),
        events[i].period_seconds >= 0 ==> worm_x(events, periods, events[i])
            >= period_bound(events, periods, placed_period(events[i]) - 1),
        events[i].period_seconds >= 0 ==> worm_x(events, periods, events[i]) >= 0,
{
    let e = events[i];
    let p = placed_period(e);
    lemma_event_seconds_cover(events, p, 0, i);
    lemma_event_period_at_most_last(events, 0, i);
    lemma_bound_monotone(events, periods, p, last_period(events, periods));
    lemma_bound_monotone(events, periods, p - 1, p - 1);
}

fn max_period_of(events: &[ScoringEvent], clock: Option<&MatchClock>) -> (m: u32)
    ensures
        m as int == last_period(events@, clock_periods(clock)),
{
    let mut m: u32 = 0;
    let mut i: usize = 0;
    while i < events.len()
        invariant
            i <= events@.len(),
            max_int(m as int, events_max_period_from(events@, i as int)) == events_max_period_from(events@, 0),
        decreases events.len() - i,
    {
        if events[i].period_number > m {
            m = events[i].period_number;
        }
        i = i + 1;
    }
    let mut c: u32 = 0;
    match clock {
        Some(clk) => {
            let mut j: usize = 0;
            while j < clk.periods.len()
                invariant
                    j <= clk.periods@.len(),
                    max_int(c as int, clock_max_period_from(clk.periods@, j as int))
                        == clock_max_period_from(clk.periods@, 0),
                decreases clk.periods.len() - j,
            {
                if clk.periods[j].period_number > c {
                    c = clk.periods[j].period_number;
                }
                j = j + 1;
            }
        },
        None => {},
    }
    let mut r: u32 = if m >= c { m } else { c };
    if r < 1 {
        r = 1;
    }
    r
}

fn clock_seconds(clock: Option<&MatchClock>, p: u32) -> (s: i64)
    ensures
        s as int == clock_seconds_from(clock_periods(clock), p as int, 0),
{
    match clock {
        Some(clk) => {
            let mut j: usize = 0;
            while j < clk.periods.len()
                invariant
                    j <= clk.periods@.len(),
                    clock_periods(clock) == clk.periods@,
                    clock_seconds_from(clk.periods@, p as int, j as int)
                        == clock_seconds_from(clk.periods@, p as int, 0),
                decreases clk.periods.len() - j,
            {
                if clk.periods[j].period_number == p {
                    return clk.periods[j].period_seconds;
                }
                j = j + 1;
            }
            0
        },
        None => 0,
    }
}

fn event_seconds(events: &[ScoringEvent], p: u32) -> (s: i64)
    ensures
        s as int == event_seconds_from(events@, p as int, 0),
{
    let mut acc: i64 = 0;
    let mut i: usize = 0;
    proof {
        lemma_event_seconds_nonneg(events@, p as int, 0);
    }
    while i < events.len()
        invariant
            i <= events@.len(),
            acc >= 0,
            max_int(acc as int, event_seconds_from(events@, p as int, i as int))
                == event_seconds_from(events@, p as int, 0),
        decreases events.len() - i,
    {
        let placed: u32 = if events[i].period_number >= 1 { events[i].period_number } else { 1 };
        if placed == p && events[i].period_seconds > acc {
            acc = events[i].period_seconds;
        }
        i = i + 1;
    }
    acc
}

/// Cumulative period boundaries (seconds): element p-1 is period p's start
/// and the final element is the end of the last period.
pub fn period_bounds(events: &[ScoringEvent], clock: Option<&MatchClock>) -> (bounds: Vec<i64>)
    requires
        bounds_fit(events@, clock_periods(clock)),
    ensures
        bounds@.len() == last_period(events@, clock_periods(clock)) + 1,
        forall|k: int| 0 <= k < bounds@.len() ==> #[trigger] bounds@[k] == period_bound(events@, clock_periods(clock), k),
{
    let ghost periods = clock_periods(clock);
    let max_period = max_period_of(events, clock);
    let mut bounds: Vec<i64> = Vec::new();
    let mut acc: i64 = 0;
    let mut p: u64 = 1;
    while p <= max_period as u64
        invariant
            1 <= p <= max_period as u64 + 1,
            max_period as int == last_period(events@, periods),
            periods == clock_periods(clock),
            bounds_fit(events@, periods),
            bounds@.len() == p - 1,
            acc as int == period_bound(events@, periods, p - 1),
            forall|k: int| 0 <= k < bounds@.len() ==> #[trigger] bounds@[k] == period_bound(events@, periods, k),
        decreases max_period as u64 + 1 - p,
    {
        bounds.push(acc);
        let from_clock = clock_seconds(clock, p as u32);
        let from_events = event_seconds(events, p as u32);
        let mut len: i64 = if from_clock >= from_events { from_clock } else { from_events };
        if len < NOMINAL_PERIOD_SECS {
            len = NOMINAL_PERIOD_SECS;
        }
        proof {
            lemma_bound_monotone(events@, periods, p as int, max_period as int);
        }
        acc = acc + len;
        p = p + 1;
    }
    bounds.push(acc);
    bounds
}

/// (match seconds, home margin) points for the worm, anchored at (0, 0).
/// X positions place each event at its period's offset plus seconds into the
/// period; period lengths come from the match clock when available.
pub fn worm_points(events: &[ScoringEvent], clock: Option<&MatchClock>) -> (pts: Vec<(i64, i64)>)
    requires
        worm_fits(events@, clock_periods(clock)),
    ensures
        pts@.len() == events@.len() + 1,
        pts@[0] == (0i64, 0i64),
        forall|i: int| 0 <= i < events@.len() ==> {
            &&& (#[trigger] pts@[i + 1]).0 == worm_x(events@, clock_periods(clock), events@[i])
            &&& pts@[i + 1].1 == events@[i].aggregate_home_score - events@[i].aggregate_away_score
        },
{
    let ghost periods = clock_periods(clock);
    let bounds = period_bounds(events, clock);
    let mut pts: Vec<(i64, i64)> = Vec::new();
    pts.push((0, 0));
    let mut i: usize = 0;
    while i < events.len()
        invariant
            i <= events@.len(),
            periods == clock_periods(clock),
            worm_fits(events@, periods),
            bounds@.len() == last_period(events@, periods) + 1,
            forall|k: int| 0 <= k < bounds@.len() ==> #[trigger] bounds@[k] == period_bound(events@, periods, k),
            pts@.len() == i + 1,
            pts@[0] == (0i64, 0i64),
            forall|j: int| 0 <= j < i ==> {
                &&& (#[trigger] pts@[j + 1]).0 == worm_x(events@, periods, events@[j])
                &&& pts@[j + 1].1 == events@[j].aggregate_home_score - events@[j].aggregate_away_score
            },
        decreases events.len() - i,
    {
        let e = &events[i];
        let p: u32 = if e.period_number >= 1 { e.period_number } else { 1 };
        proof {
            if e.period_number >= 1 {
                lemma_event_period_at_most_last(events@, 0, i as int);
            }
            assert(worm_fits(events@, periods));
            assert(i64::MIN <= worm_x(events@, periods, events@[i as int]) <= i64::MAX);
        }
        let start = bounds[(p - 1) as usize];
        let x = start + e.period_seconds;
        let y = e.margin();
        pts.push((x, y));
        i = i + 1;
    }
    pts
}

/// Whether every point of the worm, and every period boundary, fits in an
/// `i64`; the worm can be drawn only then.
pub fn worm_fits_check(events: &[ScoringEvent], clock: Option<&MatchClock>) -> (r: bool)
    ensures
        r == worm_fits(events@, clock_periods(clock)),
{
    let ghost periods = clock_periods(clock);
    let max_period = max_period_of(events, clock);
    let mut bounds: Vec<i128> = Vec::new();
    let mut acc: i128 = 0;
    let mut p: u64 = 1;
    while p <= max_period as u64
        invariant
            1 <= p <= max_period as u64 + 1,
            max_period as int == last_period(events@, periods),
            periods == clock_periods(clock),
            bounds@.len() == p - 1,
            acc as int == period_bound(events@, periods, p - 1),
            0 <= acc <= (p - 1) * i64::MAX,
            forall|k: int| 0 <= k < bounds@.len() ==> #[trigger] bounds@[k] == period_bound(events@, periods, k),
        decreases max_period as u64 + 1 - p,
    {
        bounds.push(acc);
        let from_clock = clock_seconds(clock, p as u32);
        let from_events = event_seconds(events, p as u32);
        let mut len: i64 = if from_clock >= from_events { from_clock } else { from_events };
        if len < NOMINAL_PERIOD_SECS {
            len = NOMINAL_PERIOD_SECS;
        }
        assert(p * i64::MAX <= 0x1_0000_0000 * i64::MAX) by (nonlinear_arith)
            requires
                p <= 0x1_0000_0000,
        ;
        assert((p - 1) * i64::MAX + i64::MAX == p * i64::MAX) by (nonlinear_arith);
        acc = acc + len as i128;
        p = p + 1;
    }
    bounds.push(acc);
    if acc > i64::MAX as i128 {
        return false;
    }
    let mut i: usize = 0;
    while i < events.len()
        invariant
            i <= events@.len(),
            periods == clock_periods(clock),
            bounds_fit(events@, periods),
            bounds@.len() == last_period(events@, periods) + 1,
            forall|k: int| 0 <= k < bounds@.len() ==> #[trigger] bounds@[k] == period_bound(events@, periods, k),
            forall|j: int| 0 <= j < i ==> {
                &&& i64::MIN <= #[trigger] worm_x(events@, periods, events@[j]) <= i64::MAX
                &&& i64::MIN <= events@[j].aggregate_home_score - events@[j].aggregate_away_score <= i64::MAX
            },
        decreases events.len() - i,
    {
        let e = &events[i];
        let q: u32 = if e.period_number >= 1 { e.period_number } else { 1 };
        proof {
            if e.period_number >= 1 {
                lemma_event_period_at_most_last(events@, 0, i as int);
            }
            lemma_bound_monotone(events@, periods, q - 1, last_period(events@, periods));
            assert(bounds@[q - 1] == period_bound(events@, periods, q - 1));
            lemma_bound_nonneg(events@, periods, q - 1);
            assert(0 <= bounds@[q - 1] <= i64::MAX);
        }
        let x: i128 = bounds[(q - 1) as usize] + e.period_seconds as i128;
        assert(x == worm_x(events@, periods, events@[i as int]));
        let y: i128 = e.aggregate_home_score as i128 - e.aggregate_away_score as i128;
        if x < i64::MIN as i128 || x > i64::MAX as i128 || y < i64::MIN as i128 || y > i64::MAX as i128 {
            return false;
        }
        i = i + 1;
    }
    true
}

} // verus!
