use vstd::prelude::*;

verus! {

/// Seconds in one calendar day.
pub const SECONDS_PER_DAY: i64 = 86400;

/// An instant in UTC: whole seconds since the Unix epoch and the nanoseconds
/// past that second (a leap second carries nanoseconds of a billion or more).
#[derive(Clone, Copy, Debug, PartialEq, Eq, Structural)]
pub struct Timestamp {
    pub secs: i64,
    pub nanos: u32,
}

impl Timestamp {
    /// The number of the UTC calendar day that holds this instant, counted
    /// from the day of the epoch (days before it are negative).
    pub open spec fn day_spec(self) -> int {
        self.secs as int / SECONDS_PER_DAY as int
    }

    /// This instant comes strictly after `other`.
    pub open spec fn after_spec(self, other: Timestamp) -> bool {
        self.secs > other.secs || (self.secs == other.secs && self.nanos > other.nanos)
    }

    pub fn new(secs: i64, nanos: u32) -> (r: Timestamp)
        ensures
            r.secs == secs,
            r.nanos == nanos,
    {
        Timestamp { secs, nanos }
    }

    /// The calendar day of this instant (see `day_spec`).
    pub fn day(&self) -> (d: i64)
        ensures
            d == self.day_spec(),
    {
        if self.secs >= 0 {
            self.secs / SECONDS_PER_DAY
        } else {
            // floor division for a negative numerator
            let m: i64 = -(self.secs + 1);
            let q: i64 = m / SECONDS_PER_DAY;
            proof {
                lemma_floor_div_negative(self.secs as int, m as int, q as int);
            }
            -q - 1
        }
    }

    /// Both instants fall on the same UTC calendar day.
    pub fn same_day(&self, other: &Timestamp) -> (r: bool)
        ensures
            r == (self.day_spec() == other.day_spec()),
    {
        self.day() == other.day()
    }

    /// This instant comes strictly after `other`.
    pub fn is_after(&self, other: &Timestamp) -> (r: bool)
        ensures
            r == self.after_spec(*other),
    {
        self.secs > other.secs || (self.secs == other.secs && self.nanos > other.nanos)
    }
}

/// What chrono reads from an RFC 3339 date-time text: `None` where the text is
/// not one, else the instant as whole seconds since the epoch and the
/// nanoseconds within that second.
pub uninterp spec fn rfc3339_instant(s: Seq<char>) -> Option<(i64, u32)>;

/// Relies on chrono's `DateTime::parse_from_rfc3339`, read back through
/// `timestamp` and `timestamp_subsec_nanos`: the result depends on the text
/// alone.
#[verifier::external_body]
pub(crate) fn parse_rfc3339(s: &str) -> (r: Option<Timestamp>)
    ensures
        match rfc3339_instant(s@) {
            None => r.is_none(),
            Some(p) => r == Some(Timestamp { secs: p.0, nanos: p.1 }),
        },
{
    chrono::DateTime::parse_from_rfc3339(s).ok().map(
        |d| Timestamp { secs: d.timestamp(), nanos: d.timestamp_subsec_nanos() },
    )
}

/// Relies on chrono's `Utc::now`, read back through `timestamp` and
/// `timestamp_subsec_nanos`: it reads the system clock as a duration since
/// the epoch (panicking before it), so the seconds are not negative and the
/// nanoseconds are those of a `Duration`, under a billion.
#[verifier::external_body]
pub(crate) fn utc_now() -> (t: Timestamp)
    ensures
        t.secs >= 0,
        t.nanos < 1_000_000_000,
{
    let now = chrono::Utc::now();
    Timestamp { secs: now.timestamp(), nanos: now.timestamp_subsec_nanos() }
}

proof fn lemma_floor_div_negative(s: int, m: int, q: int)
    requires
        s < 0,
        m == -(s + 1),
        q == m / 86400,
    ensures
        s / 86400 == -q - 1,
{
    let r = m % 86400;
    assert(m == q * 86400 + r && 0 <= r < 86400) by (nonlinear_arith)
        requires m >= 0, q == m / 86400, r == m % 86400;
    assert(s == (-q - 1) * 86400 + (86399 - r)) by (nonlinear_arith)
        requires s == -(m + 1), m == q * 86400 + r;
    vstd::arithmetic::div_mod::lemma_fundamental_div_mod_converse(s, 86400, -q - 1, 86399 - r);
}

} // verus!
