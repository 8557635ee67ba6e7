//! Points in time and spans of time, to the nanosecond.

use vstd::prelude::*;

verus! {

/// Nanoseconds in a second.
pub const NANOS_PER_SEC: u64 = 1_000_000_000;

/// The first second that a point in time can have, the beginning of the year -262143.
pub const FIRST_SECOND: i64 = -8_334_601_228_800;

/// The last second that a point in time can have, the end of the year 262142.
pub const LAST_SECOND: i64 = 8_210_266_876_799;

/// A span of time.
#[derive(Debug, Clone, Copy, PartialEq, Eq, PartialOrd, Ord, Structural)]
pub struct Duration {
    pub nanos: u128,
}

/// A point in time, in nanoseconds since the beginning of 1970 in UTC.
#[derive(Debug, Clone, Copy, PartialEq, Eq, PartialOrd, Ord)]
pub struct Timestamp {
    nanos: i128,
}

/// A number of seconds in nanoseconds.
pub open spec fn secs(s: int) -> int {
    s * 1_000_000_000
}

/// Whether a number of nanoseconds since 1970 is a point in time.
pub open spec fn representable(nanos: int) -> bool {
    secs(FIRST_SECOND as int) <= nanos < secs(LAST_SECOND + 1)
}

/// The point in time at a number of nanoseconds since 1970, where there is one.
pub open spec fn moment(nanos: int) -> Option<int> {
    if representable(nanos) {
        Some(nanos)
    } else {
        None
    }
}

/// The views of an optional point in time.
pub open spec fn opt_time(t: Option<Timestamp>) -> Option<int> {
    match t {
        Some(t) => Some(t@),
        None => None,
    }
}

/// How long it is from one point in time to another, nothing where the other is earlier.
pub open spec fn span(from: int, to: int) -> int {
    if to > from {
        to - from
    } else {
        0
    }
}

/// The RFC 3339 text of a point in time in UTC, as chrono writes it.
pub uninterp spec fn rfc3339_text(secs: i64, nanos: u32) -> Seq<char>;

/// The seconds since 1970 and the nanoseconds that chrono reads from an RFC 3339 text. In a leap
/// second, which has no number of its own, the nanoseconds go on from those of the second before.
pub uninterp spec fn rfc3339_moment(text: Seq<char>) -> Option<(i64, u32)>;

/// The RFC 3339 text of a point in time.
pub open spec fn rfc3339(nanos: int) -> Seq<char> {
    rfc3339_text((nanos / 1_000_000_000) as i64, (nanos % 1_000_000_000) as u32)
}

/// The nanoseconds of a second, all of a leap second at the end of the second that it follows: after
/// whatever else that second holds, and before the next one.
pub open spec fn within_second(nanos: u32) -> int {
    if nanos < 1_000_000_000 {
        nanos as int
    } else {
        999_999_999
    }
}

/// The point in time that a text names.
pub open spec fn rfc3339_time(text: Seq<char>) -> Option<int> {
    match rfc3339_moment(text) {
        Some((s, n)) => moment(secs(s as int) + within_second(n)),
        None => None,
    }
}

/// Whether a second lies in a year that RFC 3339 can write, from 0 to 9999.
pub open spec fn in_rfc3339_year(s: i64) -> bool {
    -62_167_219_200 <= s <= 253_402_300_799
}

/// `chrono::DateTime::to_rfc3339`, on the point in time that `chrono::DateTime::from_timestamp`
/// makes of the seconds and nanoseconds. It depends on these alone.
#[verifier::external_body]
fn write_rfc3339(secs: i64, nanos: u32) -> (r: String)
    requires
        FIRST_SECOND <= secs <= LAST_SECOND,
        nanos < 1_000_000_000,
    ensures
        r@ == rfc3339_text(secs, nanos),
{
    chrono::DateTime::from_timestamp(secs, nanos).unwrap().to_rfc3339()
}

/// `chrono::DateTime::parse_from_rfc3339`, as seconds and nanoseconds since 1970. What it reads
/// depends on the text alone, and what chrono wrote for a year from 0 to 9999 it reads back.
#[verifier::external_body]
fn read_rfc3339(text: &str) -> (r: Option<(i64, u32)>)
    ensures
        r == rfc3339_moment(text@),
        forall|s: i64, n: u32|
            in_rfc3339_year(s) && n < 1_000_000_000 && #[trigger] rfc3339_text(s, n) == text@
                ==> r == Some((s, n)),
{
    match chrono::DateTime::parse_from_rfc3339(text) {
        Ok(t) => Some((t.timestamp(), t.timestamp_subsec_nanos())),
        Err(_) => None,
    }
}

impl Duration {
    /// The span in nanoseconds.
    pub open spec fn view(&self) -> int {
        self.nanos as int
    }

    /// A number of seconds.
    pub fn from_secs(s: u64) -> (r: Duration)
        ensures
            r@ == secs(s as int),
    {
        Duration { nanos: (s as u128) * 1_000_000_000 }
    }

    /// A number of nanoseconds.
    pub fn from_nanos(n: u64) -> (r: Duration)
        ensures
            r@ == n,
    {
        Duration { nanos: n as u128 }
    }

    /// The shorter of two spans.
    pub fn shorter(self, other: Duration) -> (r: Duration)
        ensures
            r@ == if self@ <= other@ {
                self@
            } else {
                other@
            },
    {
        if self.nanos <= other.nanos {
            self
        } else {
            other
        }
    }

    /// The longer of two spans.
    pub fn longer(self, other: Duration) -> (r: Duration)
        ensures
            r@ == if self@ >= other@ {
                self@
            } else {
                other@
            },
    {
        if self.nanos >= other.nanos {
            self
        } else {
            other
        }
    }
}

impl Timestamp {
    #[verifier::type_invariant]
    closed spec fn in_range(self) -> bool {
        representable(self.nanos as int)
    }

    /// Nanoseconds since 1970.
    pub closed spec fn view(&self) -> int {
        self.nanos as int
    }

    /// The point in time at a number of nanoseconds since 1970.
    pub fn from_nanos(nanos: i128) -> (r: Option<Timestamp>)
        ensures
            opt_time(r) == moment(nanos as int),
    {
        if nanos < (FIRST_SECOND as i128) * 1_000_000_000 || nanos >= (LAST_SECOND as i128 + 1)
            * 1_000_000_000 {
            None
        } else {
            Some(Timestamp { nanos })
        }
    }

    /// The point in time at a number of seconds since 1970 and nanoseconds, which exceed a second in
    /// a leap second.
    pub fn from_parts(s: i64, nanos: u32) -> (r: Option<Timestamp>)
        ensures
            opt_time(r) == moment(secs(s as int) + within_second(nanos)),
    {
        let part: u32 = if nanos < 1_000_000_000 {
            nanos
        } else {
            999_999_999
        };
        Timestamp::from_nanos((s as i128) * 1_000_000_000 + (part as i128))
    }

    /// Nanoseconds since 1970.
    pub fn nanos(&self) -> (r: i128)
        ensures
            r == self@,
            representable(self@),
    {
        proof {
            use_type_invariant(self);
        }
        self.nanos
    }

    /// The point in time that many seconds later.
    pub fn plus_seconds(&self, s: i64) -> (r: Option<Timestamp>)
        ensures
            opt_time(r) == moment(self@ + secs(s as int)),
    {
        proof {
            use_type_invariant(self);
        }
        Timestamp::from_nanos(self.nanos + (s as i128) * 1_000_000_000)
    }

    /// The point in time that much later.
    pub fn plus(&self, d: Duration) -> (r: Option<Timestamp>)
        ensures
            opt_time(r) == moment(self@ + d@),
            representable(self@),
    {
        proof {
            use_type_invariant(self);
        }
        if d.nanos > 100_000_000_000_000_000_000_000 {
            return None;
        }
        Timestamp::from_nanos(self.nanos + d.nanos as i128)
    }

    /// How long it is since an earlier point in time.
    pub fn since(&self, earlier: &Timestamp) -> (r: Duration)
        ensures
            r@ == span(earlier@, self@),
    {
        proof {
            use_type_invariant(self);
            use_type_invariant(earlier);
        }
        if self.nanos > earlier.nanos {
            Duration { nanos: (self.nanos - earlier.nanos) as u128 }
        } else {
            Duration { nanos: 0 }
        }
    }

    /// The point in time as RFC 3339 text in UTC, with as many digits of the second as it takes.
    pub fn to_rfc3339(&self) -> (r: String)
        ensures
            r@ == rfc3339(self@),
    {
        proof {
            use_type_invariant(self);
        }
        let whole: i128 = if self.nanos >= 0 {
            self.nanos / 1_000_000_000
        } else {
            -((-self.nanos + 999_999_999) / 1_000_000_000)
        };
        let part: i128 = self.nanos - whole * 1_000_000_000;
        proof {
            assert(whole == self.nanos as int / 1_000_000_000 && part == self.nanos as int
                % 1_000_000_000);
        }
        write_rfc3339(whole as i64, part as u32)
    }

    /// The point in time that an RFC 3339 text names. A point in time of the years 0 to 9999 that
    /// was written is read back.
    pub fn parse_rfc3339(text: &str) -> (r: Option<Timestamp>)
        ensures
            opt_time(r) == rfc3339_time(text@),
            forall|t: int|
                in_rfc3339_year((t / 1_000_000_000) as i64) && representable(t) && #[trigger] rfc3339(
                    t,
                ) == text@ ==> opt_time(r) == Some(t),
    {
        let read = read_rfc3339(text);
        proof {
            assert forall|t: int|
                in_rfc3339_year((t / 1_000_000_000) as i64) && representable(t) && #[trigger] rfc3339(
                    t,
                ) == text@ implies rfc3339_time(text@) == Some(t) by {
                let s = (t / 1_000_000_000) as i64;
                let n = (t % 1_000_000_000) as u32;
                assert(rfc3339_text(s, n) == text@);
            }
        }
        match read {
            Some((s, n)) => Timestamp::from_parts(s, n),
            None => None,
        }
    }

    /// Whether this point in time is before another.
    pub fn is_before(&self, other: &Timestamp) -> (r: bool)
        ensures
            r == (self@ < other@),
    {
        self.nanos < other.nanos
    }
}

} // verus!
