use vstd::prelude::*;
use crate::video_filter::{FadeFilter, FadeMode, FadePoint};

verus! {

/// What a periodic watermark's period is measured on.
#[derive(Debug, Clone, Copy, PartialEq, Eq, Structural)]
pub enum PeriodicClock {
    /// From the start of the item.
    Content,
    /// On the wall clock, from the Unix epoch.
    Wall,
}

/// A watermark shown for a while once per period, all times in milliseconds.
#[derive(Debug, Clone, Copy, PartialEq, Eq, Structural)]
pub struct PeriodicTiming {
    pub clock: PeriodicClock,
    pub frequency_ms: u64,
    pub phase_offset_ms: Option<u64>,
    pub disable_after_ms: Option<u64>,
    pub fade_ms: Option<u64>,
    pub hold_ms: u64,
}

/// When a watermark is shown.
#[derive(Debug, Clone, Copy, PartialEq, Eq, Structural)]
pub enum WatermarkTiming {
    Periodic(PeriodicTiming),
}

/// Nanoseconds in a millisecond.
pub const NANOS_PER_MILLI: i128 = 1_000_000;

/// The earliest instant, in nanoseconds since the Unix epoch, that an `OffsetDateTime`
/// holds at every UTC offset: the first instant of year -9999 in local time, at
/// the smallest offset, -25:59:59.
pub const TIME_MIN_NANOS: i128 = -377_705_023_201_000_000_000;

/// The latest instant, in nanoseconds since the Unix epoch, that an `OffsetDateTime`
/// holds at every UTC offset: the last nanosecond of year 9999 in local time, at
/// the largest offset, +25:59:59.
pub const TIME_MAX_NANOS: i128 = 253_402_207_200_999_999_999;

/// A bound on the offsets between instants in range, in nanoseconds.
pub const BOUND_NANOS: i128 = 10_000_000_000_000_000_000_000;

/// An instant that stays in range whatever the UTC offset.
pub open spec fn in_time_range(ns: int) -> bool {
    TIME_MIN_NANOS <= ns <= TIME_MAX_NANOS
}

impl PeriodicTiming {
    /// The fade length: one second unless given.
    pub open spec fn fade(self) -> int {
        match self.fade_ms { Some(f) => f as int, None => 1000 }
    }

    /// The phase: zero unless given.
    pub open spec fn phase(self) -> int {
        match self.phase_offset_ms { Some(p) => p as int, None => 0 }
    }

    /// A fade fits in the hold, and two fades and the hold fit in a period.
    pub open spec fn is_valid(self) -> bool {
        self.fade() <= self.hold_ms && 2 * self.fade() + self.hold_ms <= self.frequency_ms
    }
}

/// Integer division rounded toward zero, for a positive divisor.
pub open spec fn trunc_div(a: int, b: int) -> int {
    if a >= 0 { a / b } else { -((-a) / b) }
}

/// The last wall-clock period start at or before the item's start, in
/// milliseconds since the epoch: the phase plus whole periods.
pub open spec fn wall_base_ms(timing: PeriodicTiming, item_start_ns: int) -> int {
    let item_ms = trunc_div(item_start_ns, NANOS_PER_MILLI as int);
    ((item_ms - timing.phase()) / (timing.frequency_ms as int)) * timing.frequency_ms + timing.phase()
}

/// The first period start, in nanoseconds after the item's start (negative when before it).
pub open spec fn base_delta_ns(timing: PeriodicTiming, item_start_ns: int) -> int {
    match timing.clock {
        PeriodicClock::Content => timing.phase() * NANOS_PER_MILLI,
        PeriodicClock::Wall => wall_base_ms(timing, item_start_ns) * NANOS_PER_MILLI - item_start_ns,
    }
}

/// Where the periods stop, in milliseconds after the item's start: after the
/// given time, else at the end of the item.
pub open spec fn stop_ms(timing: PeriodicTiming, duration_ms: int) -> int {
    match timing.disable_after_ms { Some(d) => d as int, None => duration_ms }
}

/// A fade at `t`, enabled from `t` to the end of the fade or of the item,
/// whichever comes first.
pub open spec fn make_point(mode: FadeMode, t: u64, fade: int, duration_ms: int) -> FadePoint {
    FadePoint {
        mode,
        time_ms: t,
        enable_start_ms: t,
        enable_finish_ms: (if t + fade < duration_ms { t + fade } else { duration_ms }) as u64,
    }
}

/// The fades of the period starting `delta_ns` after the item's start: a fade in
/// at the period start and a fade out after the fade and the hold, each in output
/// time (less the in point) and only when not before the output's start; the fade
/// in also only when the period starts within the item.
pub open spec fn period_points(delta_ns: int, in_ms: int, duration_ms: int, fade: int, hold: int) -> Seq<FadePoint> {
    let delta_ms = trunc_div(delta_ns, NANOS_PER_MILLI as int);
    let fade_in = delta_ms - in_ms;
    let fade_out = delta_ms + fade + hold - in_ms;
    (if fade_in >= 0 && delta_ns >= 0 { seq![make_point(FadeMode::In, fade_in as u64, fade, duration_ms)] } else { seq![] })
        + (if fade_out >= 0 { seq![make_point(FadeMode::Out, fade_out as u64, fade, duration_ms)] } else { seq![] })
}

/// The fades of the periods starting at `delta_ns` and every `freq_ns` after it,
/// before `stop_ns`.
pub open spec fn periods_points(delta_ns: int, stop_ns: int, freq_ns: int, in_ms: int, duration_ms: int, fade: int,
    hold: int) -> Seq<FadePoint>
    decreases (if stop_ns > delta_ns { stop_ns - delta_ns } else { 0 }),
{
    if freq_ns <= 0 || delta_ns >= stop_ns {
        seq![]
    } else {
        period_points(delta_ns, in_ms, duration_ms, fade, hold)
            + periods_points(delta_ns + freq_ns, stop_ns, freq_ns, in_ms, duration_ms, fade, hold)
    }
}

/// The points whose enable window is not empty, in their order.
pub open spec fn nonempty_points(s: Seq<FadePoint>) -> Seq<FadePoint>
    decreases s.len(),
{
    if s.len() == 0 {
        seq![]
    } else {
        let rest = nonempty_points(s.drop_last());
        if s.last().enable_start_ms < s.last().enable_finish_ms { rest.push(s.last()) } else { rest }
    }
}

/// The points with their enable windows joined: each from the end of the previous
/// fade (the start for the first) to the start of the next fade less a fade
/// (not below zero; the end of the item for the last).
pub open spec fn joined_windows(s: Seq<FadePoint>, fade: int, duration_ms: int) -> Seq<FadePoint> {
    Seq::new(s.len(), |i: int| FadePoint {
        mode: s[i].mode,
        time_ms: s[i].time_ms,
        enable_start_ms: if i == 0 { 0 } else { (s[i - 1].time_ms + fade) as u64 },
        enable_finish_ms: if i == s.len() - 1 {
            duration_ms as u64
        } else if s[i + 1].time_ms >= fade {
            (s[i + 1].time_ms - fade) as u64
        } else {
            0
        },
    })
}

/// The fades of a periodic watermark over the output from `in_ms` to `out_ms` of
/// an item that starts `item_start_ns` after the epoch: none for an invalid
/// timing; else the fades of the periods before the stop, those with an empty
/// enable window dropped, with joined enable windows.
pub open spec fn periodic_points(timing: PeriodicTiming, item_start_ns: int, in_ms: int, out_ms: int) -> Seq<FadePoint> {
    let duration_ms = out_ms - in_ms;
    if !timing.is_valid() {
        seq![]
    } else {
        let raw = periods_points(base_delta_ns(timing, item_start_ns), stop_ms(timing, duration_ms) * NANOS_PER_MILLI,
            timing.frequency_ms * NANOS_PER_MILLI, in_ms, duration_ms, timing.fade(), timing.hold_ms as int);
        joined_windows(nonempty_points(raw), timing.fade(), duration_ms)
    }
}

/// The inputs on which the periods can be computed: the out point is not before
/// the in point and the item's start and end are in range; for a valid timing
/// also a joined window fits in milliseconds, every instant in use is in range,
/// a wall-clock period start is not before the epoch, and the period is not
/// empty when periods are counted.
pub open spec fn periodic_accepts(timing: PeriodicTiming, item_start_ns: int, in_ms: int, out_ms: int) -> bool {
    let duration_ms = out_ms - in_ms;
    let stop_ns = item_start_ns + stop_ms(timing, duration_ms) * NANOS_PER_MILLI;
    &&& in_ms <= out_ms
    &&& in_time_range(item_start_ns)
    &&& in_time_range(item_start_ns + duration_ms * NANOS_PER_MILLI)
    &&& timing.is_valid() ==> {
        &&& duration_ms + timing.fade() <= u64::MAX
        &&& in_time_range(stop_ns + timing.frequency_ms * NANOS_PER_MILLI)
        &&& in_time_range(item_start_ns + base_delta_ns(timing, item_start_ns))
        &&& timing.clock == PeriodicClock::Wall ==> wall_base_ms(timing, item_start_ns) >= 0 && timing.frequency_ms > 0
        &&& timing.frequency_ms == 0 ==> base_delta_ns(timing, item_start_ns) >= stop_ms(timing, duration_ms) * NANOS_PER_MILLI
    }
}

/// `a` divided by a millisecond's nanoseconds, rounded toward zero.
fn trunc_millis(a: i128) -> (r: i128)
    requires
        -BOUND_NANOS <= a <= BOUND_NANOS,
    ensures
        r == trunc_div(a as int, NANOS_PER_MILLI as int),
{
    if a >= 0 { a / NANOS_PER_MILLI } else { -((-a) / NANOS_PER_MILLI) }
}

/// A fade at `t` (see `make_point`).
fn make_point_exec(mode: FadeMode, t: u64, fade: u64, duration_ms: u64) -> (r: FadePoint)
    ensures
        r == make_point(mode, t, fade as int, duration_ms as int),
{
    let finish = if t < duration_ms && fade < duration_ms - t { t + fade } else { duration_ms };
    FadePoint { mode, time_ms: t, enable_start_ms: t, enable_finish_ms: finish }
}

/// Appends the fades of one period (see `period_points`).
fn push_period_points(result: &mut Vec<FadePoint>, delta_ns: i128, in_ms: u64, duration_ms: u64, fade: u64, hold: u64)
    requires
        -BOUND_NANOS <= delta_ns <= BOUND_NANOS,
    ensures
        final(result)@ == old(result)@ + period_points(delta_ns as int, in_ms as int, duration_ms as int, fade as int,
            hold as int),
{
    let delta_ms = trunc_millis(delta_ns);
    let fade_in = delta_ms - in_ms as i128;
    let fade_out = delta_ms + fade as i128 + hold as i128 - in_ms as i128;
    let ghost r0 = result@;
    if fade_in >= 0 && delta_ns >= 0 {
        result.push(make_point_exec(FadeMode::In, fade_in as u64, fade, duration_ms));
    }
    let ghost r1 = result@;
    if fade_out >= 0 {
        result.push(make_point_exec(FadeMode::Out, fade_out as u64, fade, duration_ms));
    }
    assert(result@ =~= r0 + period_points(delta_ns as int, in_ms as int, duration_ms as int, fade as int, hold as int));
}

/// Drops the points with an empty enable window (see `nonempty_points`).
fn keep_nonempty(points: &Vec<FadePoint>) -> (r: Vec<FadePoint>)
    ensures
        r@ == nonempty_points(points@),
{
    let mut r: Vec<FadePoint> = Vec::new();
    let mut i: usize = 0;
    while i < points.len()
        invariant
            i <= points.len(),
            r@ == nonempty_points(points@.take(i as int)),
        decreases points.len() - i,
    {
        assert(points@.take(i as int + 1).drop_last() =~= points@.take(i as int));
        let p = points[i];
        if p.enable_start_ms < p.enable_finish_ms {
            r.push(p);
        }
        i = i + 1;
    }
    assert(points@.take(i as int) =~= points@);
    r
}

/// Joins the enable windows (see `joined_windows`).
fn join_windows(points: &Vec<FadePoint>, fade: u64, duration_ms: u64) -> (r: Vec<FadePoint>)
    requires
        forall|i: int| 0 <= i < points@.len() ==> points@[i].time_ms + fade <= u64::MAX,
    ensures
        r@ == joined_windows(points@, fade as int, duration_ms as int),
{
    let ghost target = joined_windows(points@, fade as int, duration_ms as int);
    let mut r: Vec<FadePoint> = Vec::new();
    let n = points.len();
    let mut i: usize = 0;
    while i < n
        invariant
            i <= n,
            n == points@.len(),
            forall|k: int| 0 <= k < points@.len() ==> points@[k].time_ms + fade <= u64::MAX,
            target == joined_windows(points@, fade as int, duration_ms as int),
            r@.len() == i,
            forall|k: int| 0 <= k < i ==> r@[k] == target[k],
        decreases n - i,
    {
        let start: u64 = if i == 0 { 0 } else { points[i - 1].time_ms + fade };
        let finish: u64 = if i == n - 1 {
            duration_ms
        } else if points[i + 1].time_ms >= fade {
            points[i + 1].time_ms - fade
        } else {
            0
        };
        r.push(FadePoint { mode: points[i].mode, time_ms: points[i].time_ms, enable_start_ms: start, enable_finish_ms: finish });
        i = i + 1;
    }
    assert(r@ =~= target);
    r
}

proof fn lemma_floor_div(x: int, f: int)
    requires
        f > 0,
    ensures
        (if x >= 0 { x / f } else { -((-x + f - 1) / f) }) == x / f,
        x - f < (x / f) * f <= x,
{
    vstd::arithmetic::div_mod::lemma_fundamental_div_mod(x, f);
    vstd::arithmetic::div_mod::lemma_mod_bound(x, f);
    vstd::arithmetic::mul::lemma_mul_is_commutative(f, x / f);
    if x < 0 {
        let y = -x + f - 1;
        let q = y / f;
        let r = y % f;
        vstd::arithmetic::div_mod::lemma_fundamental_div_mod(y, f);
        vstd::arithmetic::div_mod::lemma_mod_pos_bound(y, f);
        vstd::arithmetic::mul::lemma_mul_is_commutative(f, q);
        assert(x == (-q) * f + (f - 1 - r)) by (nonlinear_arith)
            requires
                y == -x + f - 1,
                y == q * f + r,
        ;
        vstd::arithmetic::div_mod::lemma_fundamental_div_mod_converse(x, f, -q, f - 1 - r);
    }
}

/// Every point of a period is enabled from its time, until no later than the end.
proof fn lemma_period_shape(delta_ns: int, in_ms: int, duration_ms: int, fade: int, hold: int)
    requires
        0 <= duration_ms <= u64::MAX,
        fade >= 0,
    ensures
        forall|i: int| 0 <= i < period_points(delta_ns, in_ms, duration_ms, fade, hold).len() ==> {
            let p = #[trigger] period_points(delta_ns, in_ms, duration_ms, fade, hold)[i];
            p.enable_start_ms == p.time_ms && p.enable_finish_ms <= duration_ms && p.enable_finish_ms <= p.time_ms + fade
                && p.enable_finish_ms == (if p.time_ms + fade < duration_ms { p.time_ms + fade } else { duration_ms })
        },
{
}

/// Every point of the periods is enabled from its time, until no later than the end.
proof fn lemma_periods_shape(delta_ns: int, stop_ns: int, freq_ns: int, in_ms: int, duration_ms: int, fade: int, hold: int)
    requires
        0 <= duration_ms <= u64::MAX,
        fade >= 0,
    ensures
        forall|i: int| 0 <= i < periods_points(delta_ns, stop_ns, freq_ns, in_ms, duration_ms, fade, hold).len() ==> {
            let p = #[trigger] periods_points(delta_ns, stop_ns, freq_ns, in_ms, duration_ms, fade, hold)[i];
            p.enable_start_ms == p.time_ms && p.enable_finish_ms <= duration_ms && p.enable_finish_ms <= p.time_ms + fade
                && p.enable_finish_ms == (if p.time_ms + fade < duration_ms { p.time_ms + fade } else { duration_ms })
        },
    decreases (if stop_ns > delta_ns { stop_ns - delta_ns } else { 0 }),
{
    if !(freq_ns <= 0 || delta_ns >= stop_ns) {
        lemma_period_shape(delta_ns, in_ms, duration_ms, fade, hold);
        lemma_periods_shape(delta_ns + freq_ns, stop_ns, freq_ns, in_ms, duration_ms, fade, hold);
        let a = period_points(delta_ns, in_ms, duration_ms, fade, hold);
        let b = periods_points(delta_ns + freq_ns, stop_ns, freq_ns, in_ms, duration_ms, fade, hold);
        assert forall|i: int| 0 <= i < (a + b).len() implies (a + b)[i].enable_start_ms == (a + b)[i].time_ms
            && (a + b)[i].enable_finish_ms <= duration_ms && (a + b)[i].enable_finish_ms <= (a + b)[i].time_ms + fade
            && (a + b)[i].enable_finish_ms == (if (a + b)[i].time_ms + fade < duration_ms { (a + b)[i].time_ms + fade } else {
                duration_ms }) by {
            if i < a.len() {
                assert((a + b)[i] == a[i]);
            } else {
                assert((a + b)[i] == b[i - a.len()]);
            }
        }
    }
}

/// The kept points keep the shape, and each is enabled before it ends.
proof fn lemma_nonempty_shape(s: Seq<FadePoint>, duration_ms: int)
    requires
        forall|i: int| 0 <= i < s.len() ==> s[i].enable_start_ms == s[i].time_ms && s[i].enable_finish_ms <= duration_ms,
    ensures
        forall|i: int| 0 <= i < nonempty_points(s).len() ==> nonempty_points(s)[i].time_ms < duration_ms,
    decreases s.len(),
{
    if s.len() > 0 {
        lemma_nonempty_shape(s.drop_last(), duration_ms);
    }
}

impl FadePoint {
    /// The fades of a periodic watermark (see `periodic_points`) over the output
    /// from `in_ms` to `out_ms` of an item that starts `item_start_ns` after the epoch.
    pub fn periodic(timing: &PeriodicTiming, item_start_ns: i128, in_ms: u64, out_ms: u64) -> (r: Vec<FadePoint>)
        requires
            periodic_accepts(*timing, item_start_ns as int, in_ms as int, out_ms as int),
        ensures
            r@ == periodic_points(*timing, item_start_ns as int, in_ms as int, out_ms as int),
    {
        let duration_ms = out_ms - in_ms;
        let fade: u64 = match timing.fade_ms { Some(f) => f, None => 1000 };
        let hold = timing.hold_ms;
        if fade > hold || 2 * (fade as u128) + hold as u128 > timing.frequency_ms as u128 {
            return Vec::new();
        }
        let phase: u64 = match timing.phase_offset_ms { Some(p) => p, None => 0 };
        let freq_ns: i128 = timing.frequency_ms as i128 * NANOS_PER_MILLI;
        let mut delta_ns: i128 = match timing.clock {
            PeriodicClock::Content => phase as i128 * NANOS_PER_MILLI,
            PeriodicClock::Wall => {
                let item_ms = trunc_millis(item_start_ns);
                let x = item_ms - phase as i128;
                let f = timing.frequency_ms as i128;
                let n: i128 = if x >= 0 { x / f } else { -((-x + f - 1) / f) };
                proof {
                    lemma_floor_div(x as int, f as int);
                }
                let last_ms = n * f + phase as i128;
                last_ms * NANOS_PER_MILLI - item_start_ns
            },
        };
        let stop_ns: i128 = match timing.disable_after_ms {
            Some(d) => d as i128 * NANOS_PER_MILLI,
            None => duration_ms as i128 * NANOS_PER_MILLI,
        };
        let ghost base = delta_ns as int;
        let ghost raw_all = periods_points(base, stop_ns as int, freq_ns as int, in_ms as int, duration_ms as int,
            fade as int, hold as int);
        let mut raw: Vec<FadePoint> = Vec::new();
        assert(raw_all == raw@ + periods_points(delta_ns as int, stop_ns as int, freq_ns as int, in_ms as int,
            duration_ms as int, fade as int, hold as int));
        while delta_ns < stop_ns
            invariant
                freq_ns > 0 || delta_ns >= stop_ns,
                base <= delta_ns,
                delta_ns < stop_ns + freq_ns || delta_ns == base,
                -BOUND_NANOS <= base,
                stop_ns + freq_ns <= BOUND_NANOS,
                raw_all == raw@ + periods_points(delta_ns as int, stop_ns as int, freq_ns as int, in_ms as int,
                    duration_ms as int, fade as int, hold as int),
            decreases (if stop_ns > delta_ns { stop_ns - delta_ns } else { 0 }),
        {
            let ghost before = raw@;
            push_period_points(&mut raw, delta_ns, in_ms, duration_ms, fade, hold);
            assert(raw_all == raw@ + periods_points(delta_ns + freq_ns, stop_ns as int, freq_ns as int, in_ms as int,
                duration_ms as int, fade as int, hold as int));
            delta_ns = delta_ns + freq_ns;
        }
        assert(raw@ =~= raw_all);
        let kept = keep_nonempty(&raw);
        proof {
            lemma_periods_shape(base, stop_ns as int, freq_ns as int, in_ms as int, duration_ms as int, fade as int, hold as int);
            lemma_nonempty_shape(raw@, duration_ms as int);
        }
        join_windows(&kept, fade, duration_ms)
    }
}

impl FadeFilter {
    /// The fades of a watermark shown periodically (see `FadePoint::periodic`), each
    /// lasting the timing's fade; none for another timing or none at all.
    pub fn for_watermark(timing: Option<&WatermarkTiming>, item_start_ns: i128, in_ms: u64, out_ms: u64)
        -> (r: Vec<FadeFilter>)
        requires
            timing matches Some(WatermarkTiming::Periodic(t)) ==> periodic_accepts(*t, item_start_ns as int, in_ms as int,
                out_ms as int),
        ensures
            match timing {
                Some(WatermarkTiming::Periodic(t)) => {
                    let pts = periodic_points(*t, item_start_ns as int, in_ms as int, out_ms as int);
                    &&& r@.len() == pts.len()
                    &&& forall|i: int| 0 <= i < pts.len() ==> r@[i] == (FadeFilter { point: pts[i], duration_ms: t.fade() as u64 })
                },
                None => r@.len() == 0,
            },
    {
        match timing {
            Some(WatermarkTiming::Periodic(t)) => {
                let duration: u64 = match t.fade_ms { Some(f) => f, None => 1000 };
                let points = FadePoint::periodic(t, item_start_ns, in_ms, out_ms);
                let mut r: Vec<FadeFilter> = Vec::new();
                let mut i: usize = 0;
                while i < points.len()
                    invariant
                        i <= points.len(),
                        r@.len() == i,
                        duration == t.fade(),
                        forall|k: int| 0 <= k < i ==> r@[k] == (FadeFilter { point: points@[k], duration_ms: duration }),
                    decreases points.len() - i,
                {
                    r.push(FadeFilter { point: points[i], duration_ms: duration });
                    i = i + 1;
                }
                r
            },
            None => Vec::new(),
        }
    }
}


/// Whether the points come in the order of their times.
pub open spec fn in_time_order(s: Seq<FadePoint>) -> bool {
    forall|i: int, j: int| 0 <= i < j < s.len() ==> s[i].time_ms <= s[j].time_ms
}

proof fn lemma_trunc_div_shift(x: int, k: int)
    requires
        k >= 0,
    ensures
        trunc_div(x + k * NANOS_PER_MILLI, NANOS_PER_MILLI as int) >= trunc_div(x, NANOS_PER_MILLI as int) + k - 1,
        trunc_div(x, NANOS_PER_MILLI as int) <= x / (NANOS_PER_MILLI as int) + 1,
        x / (NANOS_PER_MILLI as int) <= trunc_div(x, NANOS_PER_MILLI as int),
{
    let m = NANOS_PER_MILLI as int;
    vstd::arithmetic::div_mod::lemma_fundamental_div_mod(x, m);
    vstd::arithmetic::div_mod::lemma_mod_bound(x, m);
    vstd::arithmetic::div_mod::lemma_fundamental_div_mod(x + k * m, m);
    vstd::arithmetic::div_mod::lemma_mod_bound(x + k * m, m);
    vstd::arithmetic::div_mod::lemma_fundamental_div_mod(-x, m);
    vstd::arithmetic::div_mod::lemma_mod_bound(-x, m);
    vstd::arithmetic::div_mod::lemma_fundamental_div_mod(-(x + k * m), m);
    vstd::arithmetic::div_mod::lemma_mod_bound(-(x + k * m), m);
    assert((x + k * m) / m == x / m + k) by {
        vstd::arithmetic::div_mod::lemma_fundamental_div_mod_converse(x + k * m, m, x / m + k, x % m);
    }
    assert(-x == m * ((-x) / m) + (-x) % m);
    assert(x == m * (x / m) + x % m);
    if x < 0 {
        assert(-((-x) / m) <= x / m + 1) by (nonlinear_arith)
            requires
                -x == m * ((-x) / m) + (-x) % m,
                x == m * (x / m) + x % m,
                0 <= (-x) % m < m,
                0 <= x % m < m,
                m > 0,
        ;
        assert(x / m <= -((-x) / m)) by (nonlinear_arith)
            requires
                -x == m * ((-x) / m) + (-x) % m,
                x == m * (x / m) + x % m,
                0 <= (-x) % m < m,
                0 <= x % m < m,
                m > 0,
        ;
    }
    if x + k * m < 0 {
        let y = x + k * m;
        assert(y / m <= -((-y) / m)) by (nonlinear_arith)
            requires
                -y == m * ((-y) / m) + (-y) % m,
                y == m * (y / m) + y % m,
                0 <= (-y) % m < m,
                0 <= y % m < m,
                m > 0,
        ;
    }
}

/// The points of the periods come in time order, none before the first period's
/// fade in time, when no time overflows and a fade lasts at least a millisecond.
proof fn lemma_periods_in_order(delta_ns: int, stop_ns: int, freq: int, in_ms: int, duration_ms: int, fade: int, hold: int,
    stop_ms: int)
    requires
        fade >= 1,
        hold >= 0,
        2 * fade + hold <= freq,
        stop_ns == stop_ms * NANOS_PER_MILLI,
        stop_ms + fade + hold <= u64::MAX,
        in_ms >= 0,
    ensures
        in_time_order(periods_points(delta_ns, stop_ns, freq * NANOS_PER_MILLI, in_ms, duration_ms, fade, hold)),
        forall|i: int| 0 <= i < periods_points(delta_ns, stop_ns, freq * NANOS_PER_MILLI, in_ms, duration_ms, fade, hold).len()
            ==> #[trigger] periods_points(delta_ns, stop_ns, freq * NANOS_PER_MILLI, in_ms, duration_ms, fade, hold)[i].time_ms
                >= trunc_div(delta_ns, NANOS_PER_MILLI as int) - in_ms,
    decreases (if stop_ns > delta_ns { stop_ns - delta_ns } else { 0 }),
{
    let f_ns = freq * NANOS_PER_MILLI;
    if !(f_ns <= 0 || delta_ns >= stop_ns) {
        let next = delta_ns + f_ns;
        lemma_periods_in_order(next, stop_ns, freq, in_ms, duration_ms, fade, hold, stop_ms);
        lemma_trunc_div_shift(delta_ns, freq);
        lemma_trunc_div_shift(stop_ns - 1, 0);
        let dm = trunc_div(delta_ns, NANOS_PER_MILLI as int);
        let a = period_points(delta_ns, in_ms, duration_ms, fade, hold);
        let b = periods_points(next, stop_ns, f_ns, in_ms, duration_ms, fade, hold);
        assert(dm <= stop_ms) by {
            vstd::arithmetic::div_mod::lemma_fundamental_div_mod(delta_ns, NANOS_PER_MILLI as int);
            vstd::arithmetic::div_mod::lemma_mod_bound(delta_ns, NANOS_PER_MILLI as int);
            if delta_ns >= 0 {
                assert(delta_ns / (NANOS_PER_MILLI as int) < stop_ms) by (nonlinear_arith)
                    requires
                        delta_ns < stop_ms * NANOS_PER_MILLI,
                        delta_ns == NANOS_PER_MILLI * (delta_ns / (NANOS_PER_MILLI as int)) + delta_ns % (NANOS_PER_MILLI as int),
                        0 <= delta_ns % (NANOS_PER_MILLI as int),
                ;
            }
        }
        assert forall|i: int| 0 <= i < a.len() implies a[i].time_ms <= dm + fade + hold - in_ms
            && a[i].time_ms >= dm - in_ms by {}
        assert forall|i: int| 0 <= i < b.len() implies b[i].time_ms >= dm + fade + hold - in_ms by {
            assert(b[i].time_ms >= trunc_div(next, NANOS_PER_MILLI as int) - in_ms);
        }
        let s = a + b;
        assert forall|i: int, j: int| 0 <= i < j < s.len() implies s[i].time_ms <= s[j].time_ms by {
            if j < a.len() {
                assert(s[i] == a[i] && s[j] == a[j]);
            } else if i >= a.len() {
                assert(s[i] == b[i - a.len()] && s[j] == b[j - a.len()]);
            } else {
                assert(s[i] == a[i] && s[j] == b[j - a.len()]);
            }
        }
        assert forall|i: int| 0 <= i < s.len() implies #[trigger] s[i].time_ms >= dm - in_ms by {
            if i < a.len() {
                assert(s[i] == a[i]);
            } else {
                assert(s[i] == b[i - a.len()]);
            }
        }
    }
}

proof fn lemma_nonempty_members(s: Seq<FadePoint>)
    ensures
        forall|i: int| 0 <= i < nonempty_points(s).len() ==> s.contains(#[trigger] nonempty_points(s)[i])
            && nonempty_points(s)[i].enable_start_ms < nonempty_points(s)[i].enable_finish_ms,
        in_time_order(s) ==> in_time_order(nonempty_points(s)),
    decreases s.len(),
{
    if s.len() > 0 {
        let d = s.drop_last();
        lemma_nonempty_members(d);
        let r = nonempty_points(d);
        assert forall|i: int| 0 <= i < nonempty_points(s).len() implies s.contains(#[trigger] nonempty_points(s)[i])
            && nonempty_points(s)[i].enable_start_ms < nonempty_points(s)[i].enable_finish_ms by {
            if i < r.len() {
                assert(nonempty_points(s)[i] == r[i]);
                let k = choose|k: int| 0 <= k < d.len() && d[k] == r[i];
                assert(s[k] == d[k]);
            } else {
                assert(nonempty_points(s)[i] == s.last());
                assert(s[s.len() - 1] == s.last());
            }
        }
        if in_time_order(s) {
            assert(in_time_order(d)) by {
                assert forall|i: int, j: int| 0 <= i < j < d.len() implies d[i].time_ms <= d[j].time_ms by {
                    assert(d[i] == s[i] && d[j] == s[j]);
                }
            }
            let t = nonempty_points(s);
            assert forall|i: int, j: int| 0 <= i < j < t.len() implies t[i].time_ms <= t[j].time_ms by {
                if j < r.len() {
                    assert(t[i] == r[i] && t[j] == r[j]);
                } else {
                    assert(t[j] == s.last());
                    assert(t[i] == r[i]);
                    let k = choose|k: int| 0 <= k < d.len() && d[k] == r[i];
                    assert(s[k] == d[k]);
                    assert(s[s.len() - 1] == s.last());
                }
            }
        }
    }
}

/// The fades of a periodic watermark come in the order of their times.
pub proof fn law_fades_in_time_order(timing: PeriodicTiming, item_start_ns: i128, in_ms: u64, out_ms: u64)
    requires
        periodic_accepts(timing, item_start_ns as int, in_ms as int, out_ms as int),
    ensures
        in_time_order(periodic_points(timing, item_start_ns as int, in_ms as int, out_ms as int)),
{
    if timing.is_valid() {
        let start = item_start_ns as int;
        let duration_ms = out_ms - in_ms;
        let stop = stop_ms(timing, duration_ms);
        let delta = base_delta_ns(timing, start);
        let freq_ns = timing.frequency_ms * NANOS_PER_MILLI;
        let raw = periods_points(delta, stop * NANOS_PER_MILLI, freq_ns, in_ms as int, duration_ms, timing.fade(),
            timing.hold_ms as int);
        lemma_nonempty_members(raw);
        let kept = nonempty_points(raw);
        if timing.fade() == 0 {
            lemma_periods_shape(delta, stop * NANOS_PER_MILLI, freq_ns, in_ms as int, duration_ms, 0, timing.hold_ms as int);
            if kept.len() > 0 {
                let k = choose|k: int| 0 <= k < raw.len() && raw[k] == kept[0];
                assert(raw[k].enable_finish_ms <= raw[k].time_ms);
            }
        } else {
            assert(stop + timing.fade() + timing.hold_ms <= u64::MAX) by {
                assert(stop >= 0);
                assert((stop + timing.frequency_ms) * NANOS_PER_MILLI <= TIME_MAX_NANOS - TIME_MIN_NANOS);
            }
            lemma_periods_in_order(delta, stop * NANOS_PER_MILLI, timing.frequency_ms as int, in_ms as int, duration_ms,
                timing.fade(), timing.hold_ms as int, stop);
        }
        let out = joined_windows(kept, timing.fade(), duration_ms);
        assert forall|i: int, j: int| 0 <= i < j < out.len() implies out[i].time_ms <= out[j].time_ms by {
            assert(out[i].time_ms == kept[i].time_ms && out[j].time_ms == kept[j].time_ms);
        }
    }
}

/// The fades of a periodic watermark all fall before the end of the output,
/// and their enable windows start at the output's start and end at its end.
pub proof fn law_fades_within_output(timing: PeriodicTiming, item_start_ns: i128, in_ms: u64, out_ms: u64)
    requires
        periodic_accepts(timing, item_start_ns as int, in_ms as int, out_ms as int),
    ensures
        ({
            let pts = periodic_points(timing, item_start_ns as int, in_ms as int, out_ms as int);
            &&& forall|i: int| 0 <= i < pts.len() ==> #[trigger] pts[i].time_ms < out_ms - in_ms
            &&& pts.len() > 0 ==> pts[0].enable_start_ms == 0 && pts.last().enable_finish_ms == out_ms - in_ms
        }),
{
    if timing.is_valid() {
        let start = item_start_ns as int;
        let duration_ms = out_ms - in_ms;
        let stop = stop_ms(timing, duration_ms);
        let delta = base_delta_ns(timing, start);
        let freq_ns = timing.frequency_ms * NANOS_PER_MILLI;
        let raw = periods_points(delta, stop * NANOS_PER_MILLI, freq_ns, in_ms as int, duration_ms, timing.fade(),
            timing.hold_ms as int);
        lemma_periods_shape(delta, stop * NANOS_PER_MILLI, freq_ns, in_ms as int, duration_ms, timing.fade(),
            timing.hold_ms as int);
        lemma_nonempty_shape(raw, duration_ms);
        let kept = nonempty_points(raw);
        let out = joined_windows(kept, timing.fade(), duration_ms);
        assert forall|i: int| 0 <= i < out.len() implies #[trigger] out[i].time_ms < duration_ms by {
            assert(out[i].time_ms == kept[i].time_ms);
        }
    }
}

/// Each fade is followed by one of the other mode.
pub open spec fn modes_alternate(s: Seq<FadePoint>) -> bool {
    forall|i: int, j: int| #![trigger s[i], s[j]] 0 <= i && j == i + 1 && j < s.len() ==> s[i].mode != s[j].mode
}

/// An instant more than `k` milliseconds before the epoch is, in whole
/// milliseconds, at least `k` before it.
proof fn lemma_trunc_div_before(x: int, k: int)
    requires
        k >= 0,
        x + k * NANOS_PER_MILLI < 0,
    ensures
        trunc_div(x, NANOS_PER_MILLI as int) <= -k,
{
    let m = NANOS_PER_MILLI as int;
    vstd::arithmetic::div_mod::lemma_fundamental_div_mod(-x, m);
    vstd::arithmetic::div_mod::lemma_mod_bound(-x, m);
    assert((-x) / m >= k) by (nonlinear_arith)
        requires
            -x == m * ((-x) / m) + (-x) % m,
            0 <= (-x) % m < m,
            -x > k * m,
            m > 0,
    ;
}

/// A period's fades alternate: a fade in, if any, then a fade out; a fade in
/// comes whenever the period starts within the item and not before the output.
proof fn lemma_period_alternate(delta_ns: int, in_ms: int, duration_ms: int, fade: int, hold: int)
    requires
        fade >= 1,
        hold >= 0,
    ensures
        modes_alternate(period_points(delta_ns, in_ms, duration_ms, fade, hold)),
        period_points(delta_ns, in_ms, duration_ms, fade, hold).len() > 0 ==>
            period_points(delta_ns, in_ms, duration_ms, fade, hold).last().mode == FadeMode::Out
            && trunc_div(delta_ns, NANOS_PER_MILLI as int) + fade + hold - in_ms >= 0,
        delta_ns >= 0 && trunc_div(delta_ns, NANOS_PER_MILLI as int) - in_ms >= 0 ==>
            period_points(delta_ns, in_ms, duration_ms, fade, hold).len() > 0
            && period_points(delta_ns, in_ms, duration_ms, fade, hold)[0].mode == FadeMode::In,
{
}

/// After a period that has fades, the next period starts within the item and
/// not before the output.
proof fn lemma_next_period_starts(delta_ns: int, freq: int, in_ms: int, fade: int, hold: int)
    requires
        fade >= 1,
        hold >= 0,
        2 * fade + hold <= freq,
        in_ms >= 0,
        trunc_div(delta_ns, NANOS_PER_MILLI as int) + fade + hold - in_ms >= 0,
    ensures
        delta_ns + freq * NANOS_PER_MILLI >= 0,
        trunc_div(delta_ns + freq * NANOS_PER_MILLI, NANOS_PER_MILLI as int) - in_ms >= 0,
{
    lemma_trunc_div_shift(delta_ns, freq);
    if delta_ns + freq * NANOS_PER_MILLI < 0 {
        lemma_trunc_div_before(delta_ns, freq);
    }
}

/// Two alternating lists whose meeting modes differ join into one.
proof fn lemma_concat_alternate(a: Seq<FadePoint>, b: Seq<FadePoint>)
    requires
        modes_alternate(a),
        modes_alternate(b),
        a.len() > 0 && b.len() > 0 ==> a.last().mode != b[0].mode,
    ensures
        modes_alternate(a + b),
{
    let s = a + b;
    assert forall|i: int, j: int| #![trigger s[i], s[j]] 0 <= i && j == i + 1 && j < s.len()
        implies s[i].mode != s[j].mode by {
        if j < a.len() {
            assert(s[i] == a[i] && s[j] == a[j]);
        } else if i >= a.len() {
            assert(s[i] == b[i - a.len()] && s[j] == b[j - a.len()]);
            assert(b[i - a.len()] == b[i - a.len()] && b[j - a.len()] == b[j - a.len()]);
        } else {
            assert(s[i] == a[i] && s[j] == b[0]);
            assert(a[i] == a.last());
        }
    }
}

/// The raw fades alternate, and start with a fade in when the first period
/// starts within the item and not before the output.
proof fn lemma_periods_alternate(delta_ns: int, stop_ns: int, freq: int, in_ms: int, duration_ms: int, fade: int,
    hold: int)
    requires
        fade >= 1,
        hold >= 0,
        2 * fade + hold <= freq,
        in_ms >= 0,
    ensures
        modes_alternate(periods_points(delta_ns, stop_ns, freq * NANOS_PER_MILLI, in_ms, duration_ms, fade, hold)),
        periods_points(delta_ns, stop_ns, freq * NANOS_PER_MILLI, in_ms, duration_ms, fade, hold).len() > 0
            && delta_ns >= 0 && trunc_div(delta_ns, NANOS_PER_MILLI as int) - in_ms >= 0
            ==> periods_points(delta_ns, stop_ns, freq * NANOS_PER_MILLI, in_ms, duration_ms, fade, hold)[0].mode
                == FadeMode::In,
    decreases (if stop_ns > delta_ns { stop_ns - delta_ns } else { 0 }),
{
    let f_ns = freq * NANOS_PER_MILLI;
    if !(f_ns <= 0 || delta_ns >= stop_ns) {
        let next = delta_ns + f_ns;
        lemma_periods_alternate(next, stop_ns, freq, in_ms, duration_ms, fade, hold);
        lemma_period_alternate(delta_ns, in_ms, duration_ms, fade, hold);
        let a = period_points(delta_ns, in_ms, duration_ms, fade, hold);
        let b = periods_points(next, stop_ns, f_ns, in_ms, duration_ms, fade, hold);
        if a.len() > 0 {
            lemma_next_period_starts(delta_ns, freq, in_ms, fade, hold);
        }
        lemma_concat_alternate(a, b);
        if a.len() > 0 {
            assert((a + b)[0] == a[0]);
        }
    }
}

/// Leaving out the fades from some point on keeps the rest alternating.
proof fn lemma_alternate_prefix(s: Seq<FadePoint>, p: int)
    requires
        modes_alternate(s),
        0 <= p <= s.len(),
    ensures
        modes_alternate(s.take(p)),
{
    let t = s.take(p);
    assert forall|i: int, j: int| #![trigger t[i], t[j]] 0 <= i && j == i + 1 && j < t.len()
        implies t[i].mode != t[j].mode by {
        assert(t[i] == s[i] && t[j] == s[j]);
    }
}

/// When a kept fade is only ever preceded by kept fades, the kept fades are a
/// first part of the list.
proof fn lemma_nonempty_prefix(s: Seq<FadePoint>)
    requires
        forall|i: int, j: int| #![trigger s[i], s[j]] 0 <= j < i < s.len() && s[i].enable_start_ms < s[i].enable_finish_ms
            ==> s[j].enable_start_ms < s[j].enable_finish_ms,
    ensures
        exists|p: int| 0 <= p <= s.len() && nonempty_points(s) == s.take(p),
    decreases s.len(),
{
    if s.len() == 0 {
        assert(nonempty_points(s) == s.take(0));
    } else {
        let d = s.drop_last();
        lemma_nonempty_prefix(d);
        let p = choose|p: int| 0 <= p <= d.len() && nonempty_points(d) == d.take(p);
        if s.last().enable_start_ms < s.last().enable_finish_ms {
            lemma_nonempty_all(d);
            assert(nonempty_points(s) =~= s.take(s.len() as int));
        } else {
            assert(d.take(p) =~= s.take(p));
        }
    }
}

/// Nothing is left out when every fade is kept.
proof fn lemma_nonempty_all(s: Seq<FadePoint>)
    requires
        forall|j: int| 0 <= j < s.len() ==> s[j].enable_start_ms < s[j].enable_finish_ms,
    ensures
        nonempty_points(s) == s,
    decreases s.len(),
{
    if s.len() > 0 {
        lemma_nonempty_all(s.drop_last());
        assert(s.drop_last().push(s.last()) =~= s);
    }
}

/// The raw fades of a valid timing whose fades last: those kept alternate.
proof fn lemma_kept_alternate(delta: int, stop: int, freq: int, in_ms: int, duration_ms: int, fade: int, hold: int)
    requires
        fade >= 1,
        hold >= 0,
        fade <= hold,
        2 * fade + hold <= freq,
        stop >= 0,
        stop + fade + hold <= u64::MAX,
        in_ms >= 0,
        0 <= duration_ms <= u64::MAX,
    ensures
        modes_alternate(nonempty_points(periods_points(delta, stop * NANOS_PER_MILLI, freq * NANOS_PER_MILLI, in_ms,
            duration_ms, fade, hold))),
{
    let raw = periods_points(delta, stop * NANOS_PER_MILLI, freq * NANOS_PER_MILLI, in_ms, duration_ms, fade, hold);
    lemma_periods_in_order(delta, stop * NANOS_PER_MILLI, freq, in_ms, duration_ms, fade, hold, stop);
    lemma_periods_alternate(delta, stop * NANOS_PER_MILLI, freq, in_ms, duration_ms, fade, hold);
    lemma_periods_shape(delta, stop * NANOS_PER_MILLI, freq * NANOS_PER_MILLI, in_ms, duration_ms, fade, hold);
    assert forall|i: int, j: int| #![trigger raw[i], raw[j]] 0 <= j < i < raw.len()
        && raw[i].enable_start_ms < raw[i].enable_finish_ms
        implies raw[j].enable_start_ms < raw[j].enable_finish_ms by {
        assert(in_time_order(raw));
        assert(raw[j].time_ms <= raw[i].time_ms);
        assert(raw[i].enable_finish_ms <= duration_ms && raw[i].enable_start_ms == raw[i].time_ms);
        assert(raw[j].enable_start_ms == raw[j].time_ms);
    }
    lemma_nonempty_prefix(raw);
    let p = choose|p: int| 0 <= p <= raw.len() && nonempty_points(raw) == raw.take(p);
    lemma_alternate_prefix(raw, p);
}

/// The fades of a periodic watermark alternate between fading in and fading out.
pub proof fn law_fades_alternate(timing: PeriodicTiming, item_start_ns: i128, in_ms: u64, out_ms: u64)
    requires
        periodic_accepts(timing, item_start_ns as int, in_ms as int, out_ms as int),
    ensures
        modes_alternate(periodic_points(timing, item_start_ns as int, in_ms as int, out_ms as int)),
{
    if timing.is_valid() {
        let start = item_start_ns as int;
        let duration_ms = out_ms - in_ms;
        let stop = stop_ms(timing, duration_ms);
        let delta = base_delta_ns(timing, start);
        let freq_ns = timing.frequency_ms * NANOS_PER_MILLI;
        let raw = periods_points(delta, stop * NANOS_PER_MILLI, freq_ns, in_ms as int, duration_ms, timing.fade(),
            timing.hold_ms as int);
        let kept = nonempty_points(raw);
        if timing.fade() == 0 {
            lemma_nonempty_members(raw);
            lemma_periods_shape(delta, stop * NANOS_PER_MILLI, freq_ns, in_ms as int, duration_ms, 0, timing.hold_ms as int);
            if kept.len() > 0 {
                let k = choose|k: int| 0 <= k < raw.len() && raw[k] == kept[0];
                assert(raw[k].enable_finish_ms <= raw[k].time_ms);
            }
        } else {
            assert(stop + timing.fade() + timing.hold_ms <= u64::MAX) by {
                assert(stop >= 0);
                assert((stop + timing.frequency_ms) * NANOS_PER_MILLI <= TIME_MAX_NANOS - TIME_MIN_NANOS);
            }
            lemma_kept_alternate(delta, stop, timing.frequency_ms as int, in_ms as int, duration_ms, timing.fade(),
                timing.hold_ms as int);
        }
        let out = joined_windows(kept, timing.fade(), duration_ms);
        assert forall|i: int, j: int| #![trigger out[i], out[j]] 0 <= i && j == i + 1 && j < out.len()
            implies out[i].mode != out[j].mode by {
            assert(out[i].mode == kept[i].mode && out[j].mode == kept[j].mode);
            assert(kept[i] == kept[i] && kept[j] == kept[j]);
        }
    }
}

} // verus!
