//! Points in time, and their RFC 3339 texts.

use vstd::prelude::*;

use crate::duplicate::Duplicate;

verus! {

/// A point in time: whole seconds since 1970-01-01T00:00:00Z and nanoseconds after them. A leap
/// second has a thousand million nanoseconds or more.
#[derive(Debug, Clone, Copy, PartialEq, Eq, Structural)]
pub struct Instant {
    pub secs: i64,
    pub nanos: u32,
}

impl View for Instant {
    type V = Instant;

    open spec fn view(&self) -> Instant {
        *self
    }
}

impl DeepView for Instant {
    type V = Instant;

    open spec fn deep_view(&self) -> Instant {
        *self
    }
}

impl Duplicate for Instant {
    fn duplicate(&self) -> (r: Self) {
        *self
    }
}

/// The earliest second: -262143-01-01T00:00:00Z.
pub const MIN_SECONDS: i64 = -8_334_601_228_800;

/// The latest second: +262142-12-31T23:59:59Z.
pub const MAX_SECONDS: i64 = 8_210_266_876_799;

impl Instant {
    /// The point in time of an RFC 3339 text.
    pub fn parse(s: &str) -> (r: Option<Instant>)
        ensures
            r == rfc3339(s@),
            r matches Some(t) ==> t.on_calendar(),
    {
        parse_rfc3339(s)
    }

    /// The present.
    pub fn now() -> (r: Instant)
        ensures
            r.on_calendar(),
            r.secs >= 0,
            r.nanos < 1_000_000_000,
    {
        utc_now()
    }

    /// A point in time in a year of four digits that is no leap second.
    pub open spec fn plain(self) -> bool {
        -62_167_219_200 <= self.secs <= 253_402_300_799 && self.nanos < 1_000_000_000
    }

    /// The RFC 3339 text of a point in time.
    pub fn text(self) -> (r: String)
        requires
            self.on_calendar(),
        ensures
            r@ == rfc3339_text(self),
            self.plain() ==> rfc3339(r@) == Some(self),
    {
        to_rfc3339(self)
    }

    /// A point in time that a calendar date and a time of day stand for.
    pub open spec fn on_calendar(self) -> bool {
        &&& MIN_SECONDS <= self.secs <= MAX_SECONDS
        &&& self.nanos < 1_000_000_000 || (self.nanos < 2_000_000_000 && self.secs % 60 == 59)
    }

    /// Whether a calendar date and a time of day stand for the point in time.
    pub fn is_on_calendar(&self) -> (r: bool)
        ensures
            r == self.on_calendar(),
    {
        if !(MIN_SECONDS <= self.secs && self.secs <= MAX_SECONDS) {
            return false;
        }
        let shifted: u64 = (self.secs + 8_334_601_228_800i64) as u64;
        assert(shifted as int == self.secs + 8_334_601_228_800);
        assert((self.secs + 8_334_601_228_800) % 60 == self.secs as int % 60);
        self.nanos < 1_000_000_000 || (self.nanos < 2_000_000_000 && shifted % 60 == 59)
    }

    /// Not before another point in time.
    pub open spec fn at_or_after(self, other: Instant) -> bool {
        self.secs > other.secs || (self.secs == other.secs && self.nanos >= other.nanos)
    }

    /// Whether the point in time is not before another one.
    pub fn reached(&self, other: &Instant) -> (r: bool)
        ensures
            r == self.at_or_after(*other),
    {
        self.secs > other.secs || (self.secs == other.secs && self.nanos >= other.nanos)
    }

    /// The second of the day.
    pub open spec fn second_of_day(self) -> int {
        self.secs as int % 86_400
    }

    /// The whole seconds from another point in time to this one, rounded towards zero; a leap
    /// second between the two times of day counts.
    pub open spec fn seconds_since(self, other: Instant) -> int {
        let leap: int = if self.second_of_day() > other.second_of_day() && other.nanos
            >= 1_000_000_000 {
            1
        } else if self.second_of_day() < other.second_of_day() && self.nanos >= 1_000_000_000 {
            -1
        } else {
            0
        };
        let frac = self.nanos - other.nanos;
        let whole = self.secs - other.secs + leap + frac / 1_000_000_000;
        if whole < 0 && frac % 1_000_000_000 > 0 {
            whole + 1
        } else {
            whole
        }
    }

    /// The nanoseconds from another point in time to this one; a leap second between the two times
    /// of day counts.
    pub open spec fn nanos_since(self, other: Instant) -> int {
        let leap: int = if self.second_of_day() > other.second_of_day() && other.nanos
            >= 1_000_000_000 {
            1
        } else if self.second_of_day() < other.second_of_day() && self.nanos >= 1_000_000_000 {
            -1
        } else {
            0
        };
        (self.secs - other.secs + leap) * 1_000_000_000 + (self.nanos - other.nanos)
    }

    /// Whether more than a number of seconds went by since another point in time.
    pub fn outlasts(&self, other: &Instant, seconds: u32) -> (r: bool)
        ensures
            r == (self.nanos_since(*other) > seconds * 1_000_000_000),
    {
        let here: i128 = day_second(self.secs);
        let there: i128 = day_second(other.secs);
        let leap: i128 = if here > there && other.nanos >= 1_000_000_000 {
            1
        } else if here < there && self.nanos >= 1_000_000_000 {
            -1
        } else {
            0
        };
        let whole: i128 = self.secs as i128 - other.secs as i128 + leap;
        whole * 1_000_000_000i128 + (self.nanos as i128 - other.nanos as i128) > seconds as i128
            * 1_000_000_000i128
    }

    /// The point in time a positive number of seconds earlier; a leap second counts as the first
    /// moment after it.
    pub open spec fn earlier(self, seconds: int) -> Instant {
        if self.nanos >= 1_000_000_000 {
            Instant {
                secs: (self.secs - seconds + 1) as i64,
                nanos: (self.nanos - 1_000_000_000) as u32,
            }
        } else {
            Instant { secs: (self.secs - seconds) as i64, nanos: self.nanos }
        }
    }

    /// The point in time a positive number of seconds earlier.
    pub fn minus_seconds(&self, seconds: i64) -> (r: Instant)
        requires
            0 < seconds,
            MIN_SECONDS <= self.secs - seconds,
        ensures
            r == self.earlier(seconds as int),
    {
        if self.nanos >= 1_000_000_000 {
            Instant { secs: self.secs - seconds + 1, nanos: self.nanos - 1_000_000_000 }
        } else {
            Instant { secs: self.secs - seconds, nanos: self.nanos }
        }
    }

    /// The whole seconds from another point in time to this one, rounded towards zero.
    pub fn elapsed_since(&self, other: &Instant) -> (r: i128)
        ensures
            r == self.seconds_since(*other),
    {
        let here: i128 = day_second(self.secs);
        let there: i128 = day_second(other.secs);
        let leap: i128 = if here > there && other.nanos >= 1_000_000_000 {
            1
        } else if here < there && self.nanos >= 1_000_000_000 {
            -1
        } else {
            0
        };
        let shifted: i128 = self.nanos as i128 - other.nanos as i128 + 5_000_000_000i128;
        let frac_secs: i128 = shifted / 1_000_000_000i128 - 5;
        let frac_rest: i128 = shifted % 1_000_000_000i128;
        proof {
            let frac = self.nanos - other.nanos;
            assert((frac + 5_000_000_000int) / 1_000_000_000 - 5 == frac / 1_000_000_000);
            assert((frac + 5_000_000_000int) % 1_000_000_000 == frac % 1_000_000_000);
        }
        let whole: i128 = self.secs as i128 - other.secs as i128 + leap + frac_secs;
        if whole < 0 && frac_rest > 0 {
            whole + 1
        } else {
            whole
        }
    }

    /// The point in time a positive number of seconds later; a leap second is left behind.
    pub open spec fn later(self, seconds: int) -> Instant {
        Instant {
            secs: (self.secs + seconds) as i64,
            nanos: if self.nanos >= 1_000_000_000 {
                (self.nanos - 1_000_000_000) as u32
            } else {
                self.nanos
            },
        }
    }

    /// The point in time a number of seconds later, or earlier where the number is negative.
    pub open spec fn moved_by(self, seconds: int) -> Instant {
        if seconds > 0 {
            self.later(seconds)
        } else if seconds < 0 {
            self.earlier(-seconds)
        } else {
            self
        }
    }

    /// The point in time a number of seconds later, or earlier where the number is negative.
    pub fn plus_seconds(&self, seconds: i64) -> (r: Instant)
        requires
            MIN_SECONDS <= self.secs + seconds <= MAX_SECONDS,
        ensures
            r == self.moved_by(seconds as int),
    {
        if seconds == 0 || self.nanos < 1_000_000_000 {
            Instant { secs: self.secs + seconds, nanos: self.nanos }
        } else if seconds > 0 {
            Instant { secs: self.secs + seconds, nanos: self.nanos - 1_000_000_000 }
        } else {
            Instant { secs: self.secs + seconds + 1, nanos: self.nanos - 1_000_000_000 }
        }
    }
}

/// The nanoseconds from the epoch to a point in time that is no leap second.
pub open spec fn on_the_line(t: Instant) -> int {
    t.secs * 1_000_000_000 + t.nanos
}

/// Points in time that are no leap seconds stand on a line: one is not before another where its
/// place is not, the time between two of them is the distance of their places, cut to whole
/// seconds, and moving one moves its place by as many seconds.
pub proof fn law_time_is_a_line(a: Instant, b: Instant, seconds: int)
    requires
        a.nanos < 1_000_000_000,
        b.nanos < 1_000_000_000,
    ensures
        a.at_or_after(b) == (on_the_line(a) >= on_the_line(b)),
        a.nanos_since(b) == on_the_line(a) - on_the_line(b),
        on_the_line(a) >= on_the_line(b) ==> a.seconds_since(b) * 1_000_000_000 <= on_the_line(a)
            - on_the_line(b) < (a.seconds_since(b) + 1) * 1_000_000_000,
        on_the_line(a) <= on_the_line(b) ==> (a.seconds_since(b) - 1) * 1_000_000_000
            < on_the_line(a) - on_the_line(b) <= a.seconds_since(b) * 1_000_000_000,
        i64::MIN <= a.secs + seconds <= i64::MAX ==> on_the_line(a.moved_by(seconds))
            == on_the_line(a) + seconds * 1_000_000_000,
{
}

fn day_second(secs: i64) -> (r: i128)
    ensures
        r == secs as int % 86_400,
{
    let shifted: i128 = secs as i128 + 86_400i128 * 200_000_000_000_000i128;
    assert((secs + 86_400 * 200_000_000_000_000int) % 86_400 == secs as int % 86_400) by {
        vstd::arithmetic::div_mod::lemma_mod_multiples_vanish(
            200_000_000_000_000int,
            secs as int,
            86_400,
        );
    }
    shifted % 86_400i128
}

/// What `DateTime::parse_from_rfc3339` reads in a text: a point in time, where the text is an
/// RFC 3339 date and time.
pub uninterp spec fn rfc3339(s: Seq<char>) -> Option<Instant>;

/// What `DateTime::to_rfc3339` writes for a point in time in UTC.
pub uninterp spec fn rfc3339_text(t: Instant) -> Seq<char>;

/// `chrono::DateTime::parse_from_rfc3339`, with the result as seconds and nanoseconds since the
/// epoch: it is determined by the text, and a date and a time of day stand for it.
#[verifier::external_body]
pub(crate) fn parse_rfc3339(s: &str) -> (r: Option<Instant>)
    ensures
        r == rfc3339(s@),
        r matches Some(t) ==> t.on_calendar(),
{
    match chrono::DateTime::parse_from_rfc3339(s) {
        Ok(t) => Some(Instant { secs: t.timestamp(), nanos: t.timestamp_subsec_nanos() }),
        Err(_) => None,
    }
}

/// `chrono::DateTime::<Utc>::to_rfc3339`: the text is determined by the point in time, and reading
/// it gives the point in time back where the year has four digits and the second is no leap second.
#[verifier::external_body]
pub(crate) fn to_rfc3339(t: Instant) -> (r: String)
    requires
        t.on_calendar(),
    ensures
        r@ == rfc3339_text(t),
        t.plain() ==> rfc3339(r@) == Some(t),
{
    chrono::DateTime::<chrono::Utc>::from_timestamp(t.secs, t.nanos).unwrap().to_rfc3339()
}

/// `chrono::Utc::now`: some point in time at or after the epoch that a date and a time of day
/// stand for.
#[verifier::external_body]
pub(crate) fn utc_now() -> (r: Instant)
    ensures
        r.on_calendar(),
        r.secs >= 0,
        r.nanos < 1_000_000_000,
{
    let t = chrono::Utc::now();
    Instant { secs: t.timestamp(), nanos: t.timestamp_subsec_nanos() }
}

} // verus!
