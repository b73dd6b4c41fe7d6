//! Instants and spans of time as plain numbers.
use vstd::prelude::*;

verus! {

/// Nanoseconds in one second.
pub const NANOS_PER_SEC: u32 = 1_000_000_000;

/// An instant on the UTC time line: whole seconds since the Unix epoch and
/// the nanoseconds past that second.
#[derive(Clone, Copy, Debug, PartialEq, Eq, Structural)]
pub struct UtcTime {
    pub secs: i64,
    pub nanos: u32,
}

/// A non-negative span of time: whole seconds and the nanoseconds past them.
#[derive(Clone, Copy, Debug, PartialEq, Eq, Structural)]
pub struct TimeSpan {
    pub secs: u64,
    pub nanos: u32,
}

impl UtcTime {
    /// The sub-second part is a proper fraction of a second. This leaves out
    /// chrono's leap-second instants, whose sub-second part runs up to two
    /// seconds; the functions that require it do not cover them.
    pub open spec fn wf(self) -> bool {
        self.nanos < NANOS_PER_SEC
    }

    /// Nanoseconds since the Unix epoch.
    pub open spec fn total_nanos(self) -> int {
        self.secs * (NANOS_PER_SEC as int) + self.nanos
    }

    /// Whether `self` lies strictly after `other` on the time line.
    pub fn is_after(&self, other: &UtcTime) -> (b: bool)
        requires
            self.wf(),
            other.wf(),
        ensures
            b == (self.total_nanos() > other.total_nanos()),
    {
        proof {
            lemma_order(*self, *other);
        }
        self.secs > other.secs || (self.secs == other.secs && self.nanos > other.nanos)
    }
}

proof fn lemma_order(a: UtcTime, b: UtcTime)
    requires
        a.wf(),
        b.wf(),
    ensures
        (a.total_nanos() > b.total_nanos()) == (a.secs > b.secs || (a.secs == b.secs && a.nanos > b.nanos)),
{
    let n = NANOS_PER_SEC as int;
    if a.secs > b.secs {
        assert(a.secs * n >= (b.secs + 1) * n) by (nonlinear_arith)
            requires
                a.secs >= b.secs + 1,
                n > 0,
        ;
    } else if a.secs < b.secs {
        assert(b.secs * n >= (a.secs + 1) * n) by (nonlinear_arith)
            requires
                b.secs >= a.secs + 1,
                n > 0,
        ;
    }
}

impl TimeSpan {
    /// The sub-second part is a proper fraction of a second.
    pub open spec fn wf(self) -> bool {
        self.nanos < NANOS_PER_SEC
    }

    /// The span in nanoseconds.
    pub open spec fn total_nanos(self) -> int {
        self.secs * (NANOS_PER_SEC as int) + self.nanos
    }

    /// A span of whole seconds.
    pub fn from_secs(secs: u64) -> (s: TimeSpan)
        ensures
            s.secs == secs,
            s.nanos == 0,
            s.wf(),
    {
        TimeSpan { secs, nanos: 0 }
    }
}

/// The span from `from` to `to`, when `to` is not before `from`; a negative
/// span has no standard-library form and yields `None` (as `TimeDelta::to_std` does).
pub open spec fn span_between(from: UtcTime, to: UtcTime) -> Option<TimeSpan> {
    let d = to.total_nanos() - from.total_nanos();
    if d < 0 {
        None
    } else {
        Some(TimeSpan { secs: (d / (NANOS_PER_SEC as int)) as u64, nanos: (d % (NANOS_PER_SEC as int)) as u32 })
    }
}

/// Computes `span_between(from, to)`.
pub fn span_until(from: &UtcTime, to: &UtcTime) -> (r: Option<TimeSpan>)
    requires
        from.wf(),
        to.wf(),
    ensures
        r == span_between(*from, *to),
        r matches Some(s) ==> s.wf() && s.total_nanos() == to.total_nanos() - from.total_nanos(),
{
    if from.is_after(to) {
        return None;
    }
    let n: i128 = NANOS_PER_SEC as i128;
    let d: i128 = (to.secs as i128 - from.secs as i128) * n + (to.nanos as i128 - from.nanos as i128);
    proof {
        assert(d == to.total_nanos() - from.total_nanos()) by (nonlinear_arith)
            requires
                d == (to.secs - from.secs) * n + (to.nanos - from.nanos),
                n == NANOS_PER_SEC as int,
        ;
    }
    let secs: i128 = d / n;
    let nanos: i128 = d % n;
    proof {
        assert(0 <= d);
        assert(d <= (to.secs - from.secs) * n + n) by (nonlinear_arith)
            requires
                d == (to.secs - from.secs) * n + (to.nanos - from.nanos),
                to.nanos < n,
                from.nanos >= 0,
        ;
        assert(to.secs - from.secs <= 0x1_0000_0000_0000_0000 - 1);
        assert(secs * n <= d) by (nonlinear_arith)
            requires
                secs == d / n,
                n > 0,
                d >= 0,
        ;
        assert(secs <= to.secs - from.secs + 1) by (nonlinear_arith)
            requires
                secs * n <= (to.secs - from.secs) * n + n,
                n > 0,
        ;
        assert(secs <= (to.secs - from.secs)) by (nonlinear_arith)
            requires
                secs * n <= d,
                d < (to.secs - from.secs + 1) * n,
                n > 0,
        ;
        assert(0 <= secs);
    }
    Some(TimeSpan { secs: secs as u64, nanos: nanos as u32 })
}

/// What `chrono::DateTime::from_timestamp(secs, nanos)` gives, written out
/// by its alternate `Debug` form (`{:#?}`: the naive date-time as
/// `%Y-%m-%dT%H:%M:%S` with the fraction of a second when it is not zero,
/// then `Z`); `None` where `from_timestamp` gives no date-time.
pub uninterp spec fn utc_datetime_debug(secs: i64, nanos: u32) -> Option<Seq<char>>;

/// Calls `chrono::DateTime::<Utc>::from_timestamp` and writes the date-time
/// out with `{:#?}`; its result is a function of the two numbers, named
/// `utc_datetime_debug`.
#[verifier::external_body]
pub(crate) fn format_utc_debug(secs: i64, nanos: u32) -> (r: Option<String>)
    ensures
        match r {
            Some(t) => utc_datetime_debug(secs, nanos) == Some(t@),
            None => utc_datetime_debug(secs, nanos) is None,
        },
{
    match chrono::DateTime::from_timestamp(secs, nanos) {
        Some(d) => Some(format!("{:#?}", d)),
        None => None,
    }
}

/// Reads the system clock through `std::time::SystemTime::now` and
/// `SystemTime::duration_since(UNIX_EPOCH)`: `Ok` holds how far the clock is
/// past the Unix epoch, `Err` how far it is before it (from the error's
/// `duration`). Both spans come from `Duration::as_secs` and
/// `Duration::subsec_nanos`, and the latter is documented to be below one
/// second.
#[verifier::external_body]
fn clock_since_epoch() -> (r: Result<TimeSpan, TimeSpan>)
    ensures
        match r {
            Ok(d) => d.wf(),
            Err(d) => d.wf(),
        },
{
    match std::time::SystemTime::now().duration_since(std::time::UNIX_EPOCH) {
        Ok(d) => Ok(TimeSpan { secs: d.as_secs(), nanos: d.subsec_nanos() }),
        Err(e) => Err(TimeSpan { secs: e.duration().as_secs(), nanos: e.duration().subsec_nanos() }),
    }
}

/// Reads the system clock. A clock set before the Unix epoch gives an instant
/// before it; a clock beyond what an `i64` count of seconds holds gives the
/// farthest such instant.
pub(crate) fn utc_now() -> (t: UtcTime)
    ensures
        t.wf(),
{
    match clock_since_epoch() {
        Ok(d) => {
            if d.secs <= i64::MAX as u64 {
                UtcTime { secs: d.secs as i64, nanos: d.nanos }
            } else {
                UtcTime { secs: i64::MAX, nanos: NANOS_PER_SEC - 1 }
            }
        },
        Err(d) => {
            if d.secs >= i64::MAX as u64 {
                UtcTime { secs: i64::MIN, nanos: 0 }
            } else if d.nanos == 0 {
                UtcTime { secs: -(d.secs as i64), nanos: 0 }
            } else {
                UtcTime { secs: -(d.secs as i64) - 1, nanos: NANOS_PER_SEC - d.nanos }
            }
        },
    }
}

} // verus!
