//! Instants on the UTC time line, counted in nanoseconds since the Unix epoch,
//! with the system clock and the RFC 3339 texts of instants from `chrono`.

use vstd::prelude::*;
use vstd::arithmetic::div_mod::lemma_fundamental_div_mod_converse;

verus! {

/// Nanoseconds in one second.
pub const NANOS_PER_SEC: i128 = 1_000_000_000;

/// What `chrono::DateTime::parse_from_rfc3339` makes of a text: the whole
/// seconds since the Unix epoch and the nanoseconds past that second, or
/// `None` where the text is not an RFC 3339 date and time.
pub uninterp spec fn rfc3339_instant(text: Seq<char>) -> Option<(i64, u32)>;

/// The RFC 3339 text that `chrono` writes for the instant so many seconds
/// since the Unix epoch and so many nanoseconds past that second, in UTC
/// with a `Z`, and with as many digits of the second's fraction as it takes;
/// `None` where `chrono` has no date for the instant.
pub uninterp spec fn rfc3339_text(secs: i64, nanos: u32) -> Option<Seq<char>>;

/// An instant, as the number of nanoseconds since 1970-01-01T00:00:00Z.
#[derive(Clone, Copy, Debug, PartialEq, Eq, Structural)]
pub struct Timestamp {
    pub nanos: i128,
}

impl View for Timestamp {
    type V = int;

    open spec fn view(&self) -> int {
        self.nanos as int
    }
}

/// The instant that lies `nanos` nanoseconds after the whole second `secs`.
pub open spec fn instant_of(secs: i64, nanos: u32) -> int {
    secs * NANOS_PER_SEC + nanos
}

/// The timestamp that a text denotes, where it denotes one.
pub open spec fn timestamp_of_text(text: Seq<char>) -> Option<Timestamp> {
    match rfc3339_instant(text) {
        Some((secs, nanos)) => Some(Timestamp::at(secs, nanos)),
        None => None,
    }
}

/// The instant that a text denotes, where it denotes one.
pub open spec fn instant_of_text(text: Seq<char>) -> Option<int> {
    match rfc3339_instant(text) {
        Some((secs, nanos)) => Some(instant_of(secs, nanos)),
        None => None,
    }
}

/// Whether a text denotes an instant within a leap second, which chrono
/// counts as the second before it with a second or more of nanoseconds.
pub open spec fn in_leap_second(text: Seq<char>) -> bool {
    rfc3339_instant(text) matches Some((_, nanos)) && nanos >= 1_000_000_000
}

/// A timestamp made of whole seconds and less than a second of nanoseconds
/// splits into those two again.
pub proof fn lemma_parts_of_timestamp(secs: i64, nanos: u32)
    requires
        nanos < 1_000_000_000,
    ensures
        Timestamp::at(secs, nanos).whole_secs() == secs,
        Timestamp::at(secs, nanos).subsec_nanos() == nanos,
        Timestamp::at(secs, nanos).rfc3339() == rfc3339_text(secs, nanos),
{
    lemma_fundamental_div_mod_converse(
        Timestamp::at(secs, nanos)@,
        NANOS_PER_SEC as int,
        secs as int,
        nanos as int,
    );
}

/// Reads the system clock through `chrono::Utc::now` and hands back the
/// seconds since the Unix epoch (`DateTime::timestamp`) and the nanoseconds
/// past that second (`DateTime::timestamp_subsec_nanos`). Which instant the
/// clock says is not claimed. What is claimed holds of every reading:
/// `Utc::now` takes the nanoseconds from a `Duration`, so they stay below a
/// second, and it makes the instant with `DateTime::from_timestamp` from the
/// very numbers that come back here, so `from_timestamp` has a date for
/// them. `Utc::now` panics where the system clock stands before 1970.
#[verifier::external_body]
fn utc_now() -> (parts: (i64, u32))
    ensures
        parts.1 < 1_000_000_000,
        rfc3339_text(parts.0, parts.1) is Some,
{
    let now = chrono::Utc::now();
    (now.timestamp(), now.timestamp_subsec_nanos())
}

/// Parses a text with `chrono::DateTime::parse_from_rfc3339` and hands back
/// the instant's seconds since the Unix epoch and nanoseconds past that
/// second; `None` where chrono rejects the text. The result is a function of
/// the text alone, which the contract names. The two numbers of an instant
/// that chrono holds are numbers that `DateTime::from_timestamp` has a date
/// for: chrono documents that it makes the same instant of them again.
#[verifier::external_body]
fn parse_rfc3339(text: &str) -> (parts: Option<(i64, u32)>)
    ensures
        parts == rfc3339_instant(text@),
        parts matches Some((secs, nanos)) ==> rfc3339_text(secs, nanos) is Some,
{
    match chrono::DateTime::parse_from_rfc3339(text) {
        Ok(instant) => Some((instant.timestamp(), instant.timestamp_subsec_nanos())),
        Err(_) => None,
    }
}

/// Makes the instant with `chrono::DateTime::from_timestamp` and writes it
/// with `DateTime::to_rfc3339_opts`, fraction as needed and `Z` for UTC;
/// `None` where `from_timestamp` gives no instant. The result is a function
/// of the two numbers alone, which the contract names.
#[verifier::external_body]
fn format_rfc3339(secs: i64, nanos: u32) -> (text: Option<String>)
    ensures
        text.is_some() == rfc3339_text(secs, nanos).is_some(),
        text matches Some(written) ==> rfc3339_text(secs, nanos) == Some(written@),
{
    match chrono::DateTime::from_timestamp(secs, nanos) {
        Some(instant) => Some(instant.to_rfc3339_opts(chrono::SecondsFormat::AutoSi, true)),
        None => None,
    }
}

impl Timestamp {
    /// The timestamp `nanos` nanoseconds after the whole second `secs`.
    pub open spec fn at(secs: i64, nanos: u32) -> Timestamp {
        Timestamp { nanos: (secs * NANOS_PER_SEC + nanos) as i128 }
    }

    /// The whole seconds since the Unix epoch, rounded towards the past.
    pub open spec fn whole_secs(self) -> int {
        self@ / (NANOS_PER_SEC as int)
    }

    /// The nanoseconds past the whole second.
    pub open spec fn subsec_nanos(self) -> int {
        self@ % (NANOS_PER_SEC as int)
    }

    /// The RFC 3339 text of the timestamp; `None` where it lies outside the
    /// dates that can be written.
    pub open spec fn rfc3339(self) -> Option<Seq<char>> {
        if i64::MIN <= self.whole_secs() <= i64::MAX {
            rfc3339_text(self.whole_secs() as i64, self.subsec_nanos() as u32)
        } else {
            None
        }
    }

    /// Whether the timestamp can be written as an RFC 3339 text.
    pub open spec fn writable(self) -> bool {
        self.rfc3339() is Some
    }

    /// Whether the timestamp is one that the system clock can give: whole
    /// seconds and less than a second of nanoseconds, with a date that can be
    /// written.
    pub open spec fn clock_reading(self) -> bool {
        self.writable() && exists|secs: i64, nanos: u32|
            nanos < 1_000_000_000 && self == Timestamp::at(secs, nanos)
    }

    /// The instant `nanos` nanoseconds after the Unix epoch.
    pub fn from_nanos(nanos: i128) -> (t: Timestamp)
        ensures
            t@ == nanos,
    {
        Timestamp { nanos }
    }

    /// The instant `nanos` nanoseconds after the whole second `secs`.
    pub fn from_parts(secs: i64, nanos: u32) -> (t: Timestamp)
        ensures
            t == Timestamp::at(secs, nanos),
            t@ == instant_of(secs, nanos),
    {
        Timestamp { nanos: (secs as i128) * NANOS_PER_SEC + (nanos as i128) }
    }

    /// The whole seconds since the Unix epoch and the nanoseconds past that
    /// second; `None` where the seconds do not fit.
    pub fn to_parts(&self) -> (parts: Option<(i64, u32)>)
        ensures
            parts is Some == (i64::MIN <= self.whole_secs() <= i64::MAX),
            parts matches Some((secs, nanos)) ==> secs == self.whole_secs() && nanos
                == self.subsec_nanos(),
    {
        let (secs, nanos): (i128, i128) = if self.nanos >= 0 {
            (self.nanos / NANOS_PER_SEC, self.nanos % NANOS_PER_SEC)
        } else {
            let back: i128 = -(self.nanos + 1);
            (-(back / NANOS_PER_SEC) - 1, NANOS_PER_SEC - 1 - (back % NANOS_PER_SEC))
        };
        proof {
            lemma_fundamental_div_mod_converse(
                self.nanos as int,
                NANOS_PER_SEC as int,
                secs as int,
                nanos as int,
            );
        }
        if secs < i64::MIN as i128 || secs > i64::MAX as i128 {
            None
        } else {
            Some((secs as i64, nanos as u32))
        }
    }

    /// The current instant: the timestamp of what the system clock reads.
    pub fn now() -> (t: Timestamp)
        ensures
            exists|secs: i64, nanos: u32| t == Timestamp::at(secs, nanos),
            t.clock_reading(),
            t.rfc3339() is Some,
    {
        let (secs, nanos) = utc_now();
        proof {
            lemma_parts_of_timestamp(secs, nanos);
        }
        Timestamp::from_parts(secs, nanos)
    }

    /// The instant that an RFC 3339 text denotes; `None` where the text is
    /// not a valid RFC 3339 date and time. An instant that was read can be
    /// written again, unless it lies within a leap second.
    pub fn parse(text: &str) -> (t: Option<Timestamp>)
        ensures
            t == timestamp_of_text(text@),
            t.is_some() == instant_of_text(text@).is_some(),
            t matches Some(at) ==> instant_of_text(text@) == Some(at@),
            t matches Some(at) ==> (!in_leap_second(text@) ==> at.writable()),
    {
        match parse_rfc3339(text) {
            Some((secs, nanos)) => {
                proof {
                    if nanos < 1_000_000_000 {
                        lemma_parts_of_timestamp(secs, nanos);
                    }
                }
                Some(Timestamp::from_parts(secs, nanos))
            },
            None => None,
        }
    }

    /// The timestamp as an RFC 3339 text in UTC; `None` where it lies outside
    /// the dates that can be written.
    pub fn to_rfc3339(&self) -> (text: Option<String>)
        ensures
            text.is_some() == self.rfc3339().is_some(),
            text matches Some(written) ==> self.rfc3339() == Some(written@),
    {
        match self.to_parts() {
            Some((secs, nanos)) => format_rfc3339(secs, nanos),
            None => None,
        }
    }

    /// Whether this instant lies no more than `seconds` whole seconds after
    /// `now`. An instant that `now` has passed already does.
    pub fn within_of(&self, now: &Timestamp, seconds: u64) -> (near: bool)
        ensures
            near == (self@ - now@ <= seconds * NANOS_PER_SEC),
    {
        match self.nanos.checked_sub(now.nanos) {
            Some(distance) => distance <= (seconds as i128) * NANOS_PER_SEC,
            None => self.nanos < now.nanos,
        }
    }

    /// Whether at least `seconds` whole seconds lie between `earlier` and
    /// this instant. An instant before `earlier` has a negative distance.
    pub fn elapsed_at_least(&self, earlier: &Timestamp, seconds: u64) -> (reached: bool)
        ensures
            reached == (self@ - earlier@ >= seconds * NANOS_PER_SEC),
    {
        match self.nanos.checked_sub(earlier.nanos) {
            Some(distance) => distance >= (seconds as i128) * NANOS_PER_SEC,
            None => self.nanos > earlier.nanos,
        }
    }
}

} // verus!
