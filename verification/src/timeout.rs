//! Timeouts of sockets: durations, and the form in which the operating system holds them.
use crate::error::Error;
use vstd::prelude::*;

verus! {

/// How many nanoseconds a second has.
pub const NANOS_PER_SEC: u32 = 1_000_000_000;

/// How many nanoseconds a microsecond has.
pub const NANOS_PER_MICRO: u32 = 1_000;

/// A span of time: whole seconds, and a part of a second in nanoseconds.
#[derive(Debug, Clone, Copy, PartialEq, Eq, Structural)]
pub struct Duration {
    /// Whole seconds.
    pub secs: u64,
    /// The part of a second.
    pub nanos: u32,
}

impl Duration {
    /// The part of a second is less than a second.
    pub open spec fn wf(self) -> bool {
        self.nanos < NANOS_PER_SEC
    }

    /// No time at all.
    pub open spec fn is_zero(self) -> bool {
        self.secs == 0 && self.nanos == 0
    }

    /// The length of the span in nanoseconds.
    pub open spec fn total_nanos(self) -> int {
        self.secs * NANOS_PER_SEC + self.nanos
    }

    /// Makes a span out of seconds and nanoseconds. Nanoseconds that make up whole seconds are
    /// carried over.
    pub fn new(secs: u64, nanos: u32) -> (d: Duration)
        requires
            secs + nanos / NANOS_PER_SEC <= u64::MAX,
        ensures
            d.wf(),
            d.total_nanos() == secs * NANOS_PER_SEC + nanos,
            d.secs == secs + nanos / NANOS_PER_SEC,
            d.nanos == nanos % NANOS_PER_SEC,
            d.nanos < 1_000_000_000,
            d.secs * 1_000_000_000 + d.nanos == secs * 1_000_000_000 + nanos,
    {
        Duration { secs: secs + (nanos / NANOS_PER_SEC) as u64, nanos: nanos % NANOS_PER_SEC }
    }
}

/// A timeout as the operating system holds it: seconds and microseconds. Nought of both stands for
/// no timeout.
#[derive(Debug, Clone, Copy, PartialEq, Eq, Structural)]
pub struct Timeval {
    /// Seconds.
    pub sec: i64,
    /// Microseconds.
    pub usec: i64,
}

impl Timeval {
    /// The seconds, read as an unsigned number.
    pub open spec fn spec_secs(self) -> u64 {
        self.sec as u64
    }

    /// The microseconds, read as an unsigned number of 32 bits and turned into nanoseconds.
    pub open spec fn spec_nanos(self) -> int {
        (self.usec as u32) * NANOS_PER_MICRO
    }

    /// The timeout can be read as a duration: neither the nanoseconds nor the seconds overflow.
    pub open spec fn readable(self) -> bool {
        &&& self.spec_nanos() <= u32::MAX
        &&& self.spec_secs() + self.spec_nanos() / (NANOS_PER_SEC as int) <= u64::MAX
    }

    /// Tells whether the timeout can be read as a duration.
    pub fn is_readable(&self) -> (r: bool)
        ensures
            r == self.readable(),
            r == ((self.usec as u32) * 1_000 <= u32::MAX && (self.sec as u64) + (self.usec as u32)
                * 1_000 / 1_000_000_000 <= u64::MAX),
    {
        let usec: u32 = #[verifier::truncate] (self.usec as u32);
        let secs: u64 = #[verifier::truncate] (self.sec as u64);
        if usec > u32::MAX / NANOS_PER_MICRO {
            false
        } else {
            (usec * NANOS_PER_MICRO / NANOS_PER_SEC) as u64 <= u64::MAX - secs
        }
    }
}

/// The duration that a timeout set to `d` comes to, on a system that holds up to `time_max` seconds:
/// whole microseconds, at least one, and no more seconds than fit.
pub open spec fn effective(time_max: i64, d: Duration) -> Duration {
    let secs = if d.secs > time_max {
        time_max as u64
    } else {
        d.secs
    };
    let micros = d.nanos / NANOS_PER_MICRO;
    if secs == 0 && micros == 0 {
        Duration { secs: 0, nanos: NANOS_PER_MICRO }
    } else {
        Duration { secs, nanos: (micros * NANOS_PER_MICRO) as u32 }
    }
}

/// The timeout that stands for `timeout`, or the reason why there is none.
pub open spec fn timeval_spec(time_max: i64, timeout: Option<Duration>) -> Result<Timeval, Error> {
    match timeout {
        None => Ok(Timeval { sec: 0, usec: 0 }),
        Some(d) => if d.is_zero() {
            Err(Error::ZeroTimeout)
        } else {
            let e = effective(time_max, d);
            Ok(Timeval { sec: e.secs as i64, usec: (e.nanos / NANOS_PER_MICRO) as i64 })
        },
    }
}

/// The duration that a timeout stands for.
pub open spec fn duration_spec(timeval: Timeval) -> Option<Duration> {
    if timeval.sec == 0 && timeval.usec == 0 {
        None
    } else {
        Some(
            Duration {
                secs: (timeval.spec_secs() + timeval.spec_nanos() / (NANOS_PER_SEC as int)) as u64,
                nanos: (timeval.spec_nanos() % (NANOS_PER_SEC as int)) as u32,
            },
        )
    }
}

/// Turns a timeout that a caller asks for into the form of the operating system.
///
/// Seconds beyond `time_max` are cut off there. What is less than a microsecond is dropped, but
/// a timeout never becomes shorter than one microsecond. No duration at all is an error.
pub fn to_timeval(time_max: i64, timeout: Option<Duration>) -> (r: Result<Timeval, Error>)
    requires
        0 < time_max,
    ensures
        r == timeval_spec(time_max, timeout),
        timeout is None ==> r is Ok && r->Ok_0.sec == 0 && r->Ok_0.usec == 0,
        timeout is Some ==> {
            let (secs, nanos) = (timeout->0.secs, timeout->0.nanos);
            &&& r is Err <==> secs == 0 && nanos == 0
            &&& r is Err ==> r->Err_0 is ZeroTimeout
            &&& r is Ok ==> r->Ok_0.sec == if secs > time_max {
                time_max as int
            } else {
                secs as int
            }
            &&& r is Ok ==> r->Ok_0.usec == if secs == 0 && nanos < 1_000 {
                1int
            } else {
                (nanos / 1_000) as int
            }
        },
{
    match timeout {
        Some(dur) => {
            if dur.secs == 0 && dur.nanos == 0 {
                return Err(Error::ZeroTimeout);
            }
            let secs: i64 = if dur.secs > time_max as u64 {
                time_max
            } else {
                dur.secs as i64
            };
            let mut timeval = Timeval { sec: secs, usec: (dur.nanos / NANOS_PER_MICRO) as i64 };
            if timeval.sec == 0 && timeval.usec == 0 {
                timeval.usec = 1;
            }
            Ok(timeval)
        },
        None => Ok(Timeval { sec: 0, usec: 0 }),
    }
}

/// Turns a timeout of the operating system into a duration, or `None` where there is no timeout.
pub fn from_timeval(timeval: Timeval) -> (r: Option<Duration>)
    requires
        timeval.readable(),
    ensures
        r == duration_spec(timeval),
        r is None <==> timeval.sec == 0 && timeval.usec == 0,
        r is Some ==> r->0.nanos < 1_000_000_000,
        r is Some ==> r->0.secs * 1_000_000_000 + r->0.nanos == (timeval.sec as u64) * 1_000_000_000 + (
        timeval.usec as u32) * 1_000,
{
    if timeval.sec == 0 && timeval.usec == 0 {
        None
    } else {
        let secs: u64 = #[verifier::truncate] (timeval.sec as u64);
        let usec: u32 = #[verifier::truncate] (timeval.usec as u32);
        Some(Duration::new(secs, usec * NANOS_PER_MICRO))
    }
}

/// A timeout reads back as it was set, but for the microseconds that the system counts in and the
/// seconds that it has room for. In particular a timeout that was set is never read back as none.
pub proof fn law_timeout_reads_back(time_max: i64, d: Duration)
    requires
        0 < time_max,
        d.wf(),
        !d.is_zero(),
    ensures
        timeval_spec(time_max, Some(d)) is Ok,
        timeval_spec(time_max, Some(d))->Ok_0.readable(),
        duration_spec(timeval_spec(time_max, Some(d))->Ok_0) == Some(effective(time_max, d)),
{
}

/// A timeout of whole microseconds that the system has room for reads back unchanged.
pub proof fn law_exact_timeout_reads_back(time_max: i64, d: Duration)
    requires
        0 < time_max,
        d.wf(),
        !d.is_zero(),
        d.nanos % NANOS_PER_MICRO == 0,
        d.secs <= time_max,
    ensures
        timeval_spec(time_max, Some(d)) is Ok,
        duration_spec(timeval_spec(time_max, Some(d))->Ok_0) == Some(d),
{
    law_timeout_reads_back(time_max, d);
}

/// Setting a timeout to what was read back leaves it as it is.
pub proof fn law_read_timeout_sets_same(time_max: i64, d: Duration)
    requires
        0 < time_max,
        d.wf(),
        !d.is_zero(),
    ensures
        effective(time_max, d).wf(),
        timeval_spec(time_max, Some(effective(time_max, d))) == timeval_spec(time_max, Some(d)),
{
}

/// A timeout that the system has room for is off by less than a microsecond.
pub proof fn law_timeout_is_close(time_max: i64, d: Duration)
    requires
        0 < time_max,
        d.wf(),
        !d.is_zero(),
        d.secs <= time_max,
    ensures
        effective(time_max, d).total_nanos() - d.total_nanos() < NANOS_PER_MICRO,
        d.total_nanos() - effective(time_max, d).total_nanos() < NANOS_PER_MICRO,
{
}

/// A timeout that was taken away reads back as none.
pub proof fn law_no_timeout_reads_back(time_max: i64)
    ensures
        timeval_spec(time_max, None) is Ok,
        timeval_spec(time_max, None)->Ok_0.readable(),
        duration_spec(timeval_spec(time_max, None)->Ok_0) is None,
{
}

/// A duration is well formed where its nanoseconds make up less than a second, is nothing where both
/// of its parts are nought, and is as long as its parts together.
pub proof fn law_duration_is_its_parts(d: Duration)
    ensures
        d.wf() <==> d.nanos < 1_000_000_000,
        d.is_zero() <==> d.secs == 0 && d.nanos == 0,
        d.total_nanos() == d.secs * 1_000_000_000 + d.nanos,
{
}

/// The system is handed the seconds of a duration as seconds and its whole microseconds as
/// microseconds, as long as it has room for the seconds and there is at least one microsecond.
pub proof fn law_timeout_is_handed_over(time_max: i64, d: Duration)
    requires
        0 < time_max,
        d.secs <= time_max,
        d.secs > 0 || d.nanos >= 1_000,
    ensures
        timeval_spec(time_max, Some(d)) is Ok,
        timeval_spec(time_max, Some(d))->Ok_0.sec == d.secs,
        timeval_spec(time_max, Some(d))->Ok_0.usec == d.nanos / 1_000,
{
}

/// Of a duration with more seconds than the system has room for, it is handed as many as it has
/// room for, and all whole microseconds.
pub proof fn law_long_timeout_is_cut_off(time_max: i64, d: Duration)
    requires
        0 < time_max,
        d.secs > time_max,
    ensures
        timeval_spec(time_max, Some(d)) is Ok,
        timeval_spec(time_max, Some(d))->Ok_0.sec == time_max,
        timeval_spec(time_max, Some(d))->Ok_0.usec == d.nanos / 1_000,
{
}

/// A duration of less than a microsecond is handed over as one microsecond, none at all is refused,
/// and the system is told that there is no timeout by nought of both.
pub proof fn law_short_timeout_is_one_microsecond(time_max: i64, d: Duration)
    requires
        0 < time_max,
        d.secs == 0,
        d.nanos < 1_000,
    ensures
        d.nanos > 0 ==> timeval_spec(time_max, Some(d)) is Ok && timeval_spec(
            time_max,
            Some(d),
        )->Ok_0.sec == 0 && timeval_spec(time_max, Some(d))->Ok_0.usec == 1,
        d.nanos == 0 ==> timeval_spec(time_max, Some(d)) is Err && timeval_spec(
            time_max,
            Some(d),
        )->Err_0 is ZeroTimeout,
        timeval_spec(time_max, None) is Ok,
        timeval_spec(time_max, None)->Ok_0.sec == 0,
        timeval_spec(time_max, None)->Ok_0.usec == 0,
{
}

/// A timeout that the system holds is as long as its seconds and microseconds together, and there is
/// none where both are nought.
pub proof fn law_timeout_is_its_parts(timeval: Timeval)
    requires
        0 <= timeval.sec,
        0 <= timeval.usec < 1_000_000,
    ensures
        timeval.readable(),
        duration_spec(timeval) is None <==> timeval.sec == 0 && timeval.usec == 0,
        duration_spec(timeval) is Some ==> duration_spec(timeval)->0.secs == timeval.sec,
        duration_spec(timeval) is Some ==> duration_spec(timeval)->0.nanos == timeval.usec * 1_000,
{
}

/// Any timeout that the system can hand out reads as the unsigned numbers of its seconds and
/// microseconds together, where these fit a duration.
pub proof fn law_any_timeout_is_its_parts(timeval: Timeval)
    ensures
        timeval.readable() <==> (timeval.usec as u32) * 1_000 <= u32::MAX && (timeval.sec as u64) + (
        timeval.usec as u32) * 1_000 / 1_000_000_000 <= u64::MAX,
        timeval.readable() && (timeval.sec != 0 || timeval.usec != 0) ==> {
            let d = duration_spec(timeval);
            &&& d is Some
            &&& d->0.nanos < 1_000_000_000
            &&& d->0.secs * 1_000_000_000 + d->0.nanos == (timeval.sec as u64) * 1_000_000_000 + (
            timeval.usec as u32) * 1_000
        },
{
}

/// A timeout comes to the seconds that there is room for and the whole microseconds, and to one
/// microsecond where it has neither.
pub proof fn law_effective_timeout_is_its_parts(time_max: i64, d: Duration)
    requires
        0 < time_max,
        d.nanos < 1_000_000_000,
    ensures
        effective(time_max, d).secs == if d.secs > time_max {
            time_max as int
        } else {
            d.secs as int
        },
        effective(time_max, d).nanos == if d.secs == 0 && d.nanos < 1_000 {
            1_000int
        } else {
            d.nanos - d.nanos % 1_000
        },
{
}

} // verus!
