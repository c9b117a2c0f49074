//! Durations in whole hours, days or weeks, and the timeline attached to a work item.

use crate::calendar::{
    elapsed_seconds, is_representable, representable, seconds_between, shift, shifted,
    MAX_DELTA_SECS,
};
use vstd::prelude::*;

verus! {

/// The seconds in an hour.
pub const SECS_PER_HOUR: u64 = 3600;

/// The seconds in a day.
pub const SECS_PER_DAY: u64 = 86_400;

/// The seconds in a week.
pub const SECS_PER_WEEK: u64 = 604_800;

/// A length of time in one unit, rounded away from zero to a whole number of it.
#[derive(Debug, Clone, Copy, PartialEq, Eq, Structural)]
pub enum Duration {
    Hours(i64),
    Days(i64),
    Weeks(i64),
}

/// The number of whole `unit`s needed to cover `amount`.
pub open spec fn units_to_cover(amount: int, unit: int) -> int {
    (amount + unit - 1) / unit
}

/// `units_to_cover` is the least count whose multiple of `unit` reaches `amount`.
pub proof fn lemma_units_to_cover_is_least(amount: int, unit: int)
    requires
        0 <= amount,
        0 < unit,
    ensures
        units_to_cover(amount, unit) * unit >= amount,
        (units_to_cover(amount, unit) - 1) * unit < amount,
{
    let k = units_to_cover(amount, unit);
    assert(k * unit >= amount && (k - 1) * unit < amount) by (nonlinear_arith)
        requires
            k == (amount + unit - 1) / unit,
            0 <= amount,
            0 < unit,
    ;
}

/// The whole `unit`s that cover `magnitude`, negated where `total_secs` is negative.
pub open spec fn signed_count(total_secs: int, magnitude: int, unit: int) -> i64 {
    let count = units_to_cover(magnitude, unit);
    (if total_secs < 0 { -count } else { count }) as i64
}

impl Duration {
    /// The duration that stands for `total_secs` seconds: weeks where the magnitude is over a
    /// week, days where it is over a day, hours otherwise; the count keeps the sign.
    pub open spec fn of_seconds(total_secs: int) -> Duration {
        let magnitude = if total_secs < 0 { -total_secs } else { total_secs };
        if magnitude > SECS_PER_WEEK {
            Duration::Weeks(signed_count(total_secs, magnitude, SECS_PER_WEEK as int))
        } else if magnitude > SECS_PER_DAY {
            Duration::Days(signed_count(total_secs, magnitude, SECS_PER_DAY as int))
        } else {
            Duration::Hours(signed_count(total_secs, magnitude, SECS_PER_HOUR as int))
        }
    }
}

/// Counts the whole `unit`s that cover `magnitude`. With a unit of an hour or more the count
/// fits an `i64` whatever the magnitude.
fn count_units(magnitude: u64, unit: u64) -> (count: u64)
    requires
        unit >= SECS_PER_HOUR,
    ensures
        count == units_to_cover(magnitude as int, unit as int),
        count <= magnitude / SECS_PER_HOUR + 1,
{
    let whole: u64 = magnitude / unit;
    proof {
        let m = magnitude as int;
        let u = unit as int;
        assert(m / u <= m / 3600) by (nonlinear_arith)
            requires
                0 <= m,
                3600 <= u,
        ;
        assert((m + u - 1) / u == m / u + (if m % u != 0 { 1int } else { 0int }))
            by (nonlinear_arith)
            requires
                0 <= m,
                0 < u,
        ;
    }
    if magnitude % unit != 0 {
        whole + 1
    } else {
        whole
    }
}

impl vstd::std_specs::convert::FromSpecImpl<i64> for Duration {
    open spec fn obeys_from_spec() -> bool {
        true
    }

    open spec fn from_spec(total_secs: i64) -> Duration {
        Duration::of_seconds(total_secs as int)
    }
}

impl From<i64> for Duration {
    /// The duration that stands for a number of seconds, of either sign.
    fn from(total_secs: i64) -> (d: Duration)
        ensures
            d == Duration::of_seconds(total_secs as int),
    {
        let negative = total_secs < 0;
        let magnitude: u64 = if negative {
            (-(total_secs + 1)) as u64 + 1
        } else {
            total_secs as u64
        };
        if magnitude > SECS_PER_WEEK {
            let weeks = count_units(magnitude, SECS_PER_WEEK) as i64;
            Duration::Weeks(if negative { -weeks } else { weeks })
        } else if magnitude > SECS_PER_DAY {
            let days = count_units(magnitude, SECS_PER_DAY) as i64;
            Duration::Days(if negative { -days } else { days })
        } else {
            let hours = count_units(magnitude, SECS_PER_HOUR) as i64;
            Duration::Hours(if negative { -hours } else { hours })
        }
    }
}

/// A point in time: whole seconds after the Unix epoch and the nanoseconds past them. Every
/// value is an instant that the calendar holds.
#[derive(Debug, Clone, Copy)]
pub struct Instant {
    secs: i64,
    nanos: u32,
}

impl Instant {
    #[verifier::type_invariant]
    spec fn inv(self) -> bool {
        representable(self.secs as int, self.nanos as int)
    }

    /// Whole seconds after the Unix epoch.
    pub closed spec fn spec_secs(&self) -> i64 {
        self.secs
    }

    /// Nanoseconds past the whole second.
    pub closed spec fn spec_nanos(&self) -> u32 {
        self.nanos
    }

    /// The instant `secs` seconds and `nanos` nanoseconds after the Unix epoch, where the
    /// calendar holds it.
    pub fn new(secs: i64, nanos: u32) -> (r: Option<Instant>)
        ensures
            r is Some <==> representable(secs as int, nanos as int),
            r matches Some(i) ==> i.secs() == secs && i.nanos() == nanos,
    {
        if is_representable(secs, nanos) {
            Some(Instant { secs, nanos })
        } else {
            None
        }
    }

    /// The Unix epoch.
    pub fn epoch() -> (r: Instant)
        ensures
            r.secs() == 0,
            r.nanos() == 0,
    {
        let held = is_representable(0, 0);
        assert(held);
        Instant { secs: 0, nanos: 0 }
    }

    /// Whole seconds after the Unix epoch.
    #[verifier::when_used_as_spec(spec_secs)]
    pub fn secs(&self) -> (r: i64)
        ensures
            r == self.secs(),
    {
        self.secs
    }

    /// Nanoseconds past the whole second.
    #[verifier::when_used_as_spec(spec_nanos)]
    pub fn nanos(&self) -> (r: u32)
        ensures
            r == self.nanos(),
    {
        self.nanos
    }
}

/// Two instants with the same seconds and nanoseconds are the same instant.
pub proof fn lemma_instant_by_parts(a: Instant, b: Instant)
    requires
        a.secs() == b.secs(),
        a.nanos() == b.nanos(),
    ensures
        a == b,
{
}

impl Duration {
    /// The seconds that the duration spans, where a calendar delta holds that many:
    /// at most `MAX_DELTA_SECS` either way.
    pub open spec fn spec_total_seconds(&self) -> Option<i64> {
        let total: int = match *self {
            Duration::Hours(h) => h * SECS_PER_HOUR,
            Duration::Days(d) => d * SECS_PER_DAY,
            Duration::Weeks(w) => w * SECS_PER_WEEK,
        };
        if -MAX_DELTA_SECS <= total <= MAX_DELTA_SECS {
            Some(total as i64)
        } else {
            None
        }
    }

    /// The seconds that the duration spans, or `None` where they are more than a calendar
    /// delta holds.
    #[verifier::when_used_as_spec(spec_total_seconds)]
    pub fn total_seconds(&self) -> (r: Option<i64>)
        ensures
            r == self.spec_total_seconds(),
    {
        let (count, unit): (i64, i64) = match *self {
            Duration::Hours(h) => (h, SECS_PER_HOUR as i64),
            Duration::Days(d) => (d, SECS_PER_DAY as i64),
            Duration::Weeks(w) => (w, SECS_PER_WEEK as i64),
        };
        let limit: i64 = MAX_DELTA_SECS / unit;
        if -limit <= count && count <= limit {
            assert(-MAX_DELTA_SECS <= count * unit <= MAX_DELTA_SECS) by (nonlinear_arith)
                requires
                    -limit <= count <= limit,
                    limit == MAX_DELTA_SECS / unit,
                    unit > 0,
            ;
            Some(count * unit)
        } else {
            assert(count * unit < -MAX_DELTA_SECS || count * unit > MAX_DELTA_SECS)
                by (nonlinear_arith)
                requires
                    count < -limit || count > limit,
                    limit == MAX_DELTA_SECS / unit,
                    unit > 0,
            ;
            None
        }
    }

    /// The duration between two instants: the whole seconds that the calendar counts from
    /// `start` to `end`, in the unit that fits them.
    pub fn get_duration(start: &Instant, end: &Instant) -> (d: Duration)
        ensures
            d == Duration::of_seconds(
                seconds_between(
                    start.secs() as int,
                    start.nanos() as int,
                    end.secs() as int,
                    end.nanos() as int,
                ),
            ),
    {
        proof {
            use_type_invariant(start);
            use_type_invariant(end);
        }
        let total = elapsed_seconds(start.secs, start.nanos, end.secs, end.nanos);
        Duration::from(total)
    }
}

/// When a work item starts, when it ends, and how long it takes.
#[derive(Debug, Clone, Copy)]
pub struct Timeline {
    pub start: Instant,
    pub end: Option<Instant>,
    pub duration: Option<Duration>,
}

impl Default for Timeline {
    /// A timeline that starts at the Unix epoch and has neither end nor duration.
    fn default() -> (t: Timeline)
        ensures
            t.start.secs() == 0,
            t.start.nanos() == 0,
            t.end is None,
            t.duration is None,
    {
        Timeline { start: Instant::epoch(), end: None, duration: None }
    }
}

impl Timeline {
    /// The timeline from `st` to `en`, with the duration between them.
    pub fn from_start_end(st: Instant, en: Instant) -> (t: Timeline)
        ensures
            t.start == st,
            t.end == Some(en),
            t.duration == Some(
                Duration::of_seconds(
                    seconds_between(
                        st.secs() as int,
                        st.nanos() as int,
                        en.secs() as int,
                        en.nanos() as int,
                    ),
                ),
            ),
    {
        let duration = Duration::get_duration(&st, &en);
        Timeline { start: st, end: Some(en), duration: Some(duration) }
    }

    /// Where a timeline that starts at `st` and takes `duration` ends, as seconds and
    /// nanoseconds after the Unix epoch; `None` where the duration is more than a calendar
    /// delta holds or the calendar does not reach the end.
    pub open spec fn end_of(st: Instant, duration: Duration) -> Option<(int, int)> {
        match duration.spec_total_seconds() {
            Some(total) => shifted(st.secs() as int, st.nanos() as int, total as int),
            None => None,
        }
    }

    /// The timeline that starts at `st` and takes `duration`, where the calendar reaches its
    /// end.
    pub fn try_from_start_duration(st: Instant, duration: Duration) -> (r: Option<Timeline>)
        ensures
            r is Some <==> Timeline::end_of(st, duration) is Some,
            r matches Some(t) ==> Timeline::starts_and_takes(t, st, duration),
    {
        proof {
            use_type_invariant(st);
        }
        match duration.total_seconds() {
            Some(total) => {
                if shift(st.secs, st.nanos, total).is_some() {
                    Some(Timeline::from_start_duration(st, duration))
                } else {
                    None
                }
            },
            None => None,
        }
    }

    /// Whether `t` starts at `st`, takes `duration` and ends where `end_of` says.
    pub open spec fn starts_and_takes(t: Timeline, st: Instant, duration: Duration) -> bool {
        &&& t.start == st
        &&& t.duration == Some(duration)
        &&& t.end matches Some(en)
        &&& Timeline::end_of(st, duration) == Some((en.secs() as int, en.nanos() as int))
    }

    /// The timeline that starts at `st` and takes `duration`. The calendar must reach its end.
    pub fn from_start_duration(st: Instant, duration: Duration) -> (t: Timeline)
        requires
            Timeline::end_of(st, duration) is Some,
        ensures
            Timeline::starts_and_takes(t, st, duration),
    {
        proof {
            use_type_invariant(st);
        }
        let total = duration.total_seconds().unwrap();
        let (secs, nanos) = shift(st.secs, st.nanos, total).unwrap();
        Timeline { start: st, end: Some(Instant { secs, nanos }), duration: Some(duration) }
    }
}

} // verus!
