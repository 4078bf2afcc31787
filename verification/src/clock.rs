//! Instants in time as plain integers, with the calendar renderings that the
//! engine writes into file names and configuration documents.

use vstd::prelude::*;

verus! {

/// Seconds in one day.
pub const SECONDS_PER_DAY: i64 = 86_400;

/// The last supported second: 9999-12-31T23:59:59 UTC.
pub const MAX_TIMESTAMP_SECONDS: i64 = 253_402_300_799;

/// The largest sub-second part, in nanoseconds.
pub const MAX_NANOS: u32 = 999_999_999;

/// What `chrono::DateTime::<Utc>::to_rfc3339` returns for the instant that lies
/// `seconds` and `nanos` after the epoch.
pub uninterp spec fn rfc3339_text(seconds: i64, nanos: u32) -> Seq<char>;

/// What `chrono::DateTime::<Utc>::format` returns for the instant that lies
/// `seconds` and `nanos` after the epoch, with the pattern `%Y%m%d_%H%M%S_%3f`.
pub uninterp spec fn backup_stamp_text(seconds: i64, nanos: u32) -> Seq<char>;

/// An instant between 1970-01-01T00:00:00 and 9999-12-31T23:59:59.999999999 UTC.
#[derive(Debug, Clone, Copy, PartialEq, Eq, PartialOrd, Ord, Hash, Structural)]
pub struct Timestamp {
    seconds: i64,
    nanos: u32,
}

/// Whole seconds, brought into the supported range.
pub open spec fn clamp_seconds(seconds: int) -> int {
    if seconds < 0 {
        0
    } else if seconds > MAX_TIMESTAMP_SECONDS {
        MAX_TIMESTAMP_SECONDS as int
    } else {
        seconds
    }
}

/// A sub-second part, brought into the supported range.
pub open spec fn clamp_nanos(nanos: int) -> int {
    if nanos > MAX_NANOS {
        MAX_NANOS as int
    } else {
        nanos
    }
}

/// `chrono::Utc::now`, read as whole seconds since the epoch and the
/// nanoseconds within the second. Nothing is claimed of the reading.
#[verifier::external_body]
fn read_clock() -> (reading: (i64, u32)) {
    let now = chrono::Utc::now();
    (now.timestamp(), now.timestamp_subsec_nanos())
}

/// `chrono::DateTime::from_timestamp` followed by `to_rfc3339`: the RFC 3339
/// text of an instant in the supported range, which depends on the instant alone.
#[verifier::external_body]
fn render_rfc3339(seconds: i64, nanos: u32) -> (text: String)
    requires
        0 <= seconds <= MAX_TIMESTAMP_SECONDS,
        nanos <= MAX_NANOS,
    ensures
        text@ == rfc3339_text(seconds, nanos),
{
    chrono::DateTime::from_timestamp(seconds, nanos).unwrap_or_default().to_rfc3339()
}

/// `chrono::DateTime::from_timestamp` followed by `format` with the pattern
/// `%Y%m%d_%H%M%S_%3f`: date, time and milliseconds of an instant in the
/// supported range, which depend on the instant alone.
#[verifier::external_body]
fn render_backup_stamp(seconds: i64, nanos: u32) -> (text: String)
    requires
        0 <= seconds <= MAX_TIMESTAMP_SECONDS,
        nanos <= MAX_NANOS,
    ensures
        text@ == backup_stamp_text(seconds, nanos),
{
    chrono::DateTime::from_timestamp(seconds, nanos).unwrap_or_default().format(
        "%Y%m%d_%H%M%S_%3f",
    ).to_string()
}

impl Timestamp {
    #[verifier::type_invariant]
    spec fn in_range(self) -> bool {
        &&& 0 <= self.seconds <= MAX_TIMESTAMP_SECONDS
        &&& self.nanos <= MAX_NANOS
    }

    /// Whole seconds since the epoch.
    pub closed spec fn secs(self) -> int {
        self.seconds as int
    }

    /// Nanoseconds within the second.
    pub closed spec fn subsec(self) -> int {
        self.nanos as int
    }

    /// The instant nearest to the given reading that lies in the supported range.
    pub fn clamped(seconds: i64, nanos: u32) -> (t: Timestamp)
        ensures
            t.secs() == clamp_seconds(seconds as int),
            t.subsec() == clamp_nanos(nanos as int),
    {
        let seconds = if seconds < 0 {
            0
        } else if seconds > MAX_TIMESTAMP_SECONDS {
            MAX_TIMESTAMP_SECONDS
        } else {
            seconds
        };
        let nanos = if nanos > MAX_NANOS {
            MAX_NANOS
        } else {
            nanos
        };
        Timestamp { seconds, nanos }
    }

    /// The current instant, as the system clock reports it. Whatever the
    /// clock reads, the reading is brought into the supported range as
    /// `clamped` does, so the instant lies in that range.
    pub fn now() -> (t: Timestamp)
        ensures
            0 <= t.secs() <= MAX_TIMESTAMP_SECONDS,
            0 <= t.subsec() <= MAX_NANOS,
    {
        let reading = read_clock();
        Timestamp::clamped(reading.0, reading.1)
    }

    /// Whole seconds since the epoch.
    pub fn timestamp(&self) -> (seconds: i64)
        ensures
            seconds == self.secs(),
            0 <= seconds <= MAX_TIMESTAMP_SECONDS,
    {
        proof {
            use_type_invariant(self);
        }
        self.seconds
    }

    /// Nanoseconds within the second.
    pub fn subsec_nanos(&self) -> (nanos: u32)
        ensures
            nanos == self.subsec(),
            nanos <= MAX_NANOS,
    {
        proof {
            use_type_invariant(self);
        }
        self.nanos
    }

    /// The instant `days` days later, or the last supported instant of that
    /// sub-second if that would lie beyond it.
    pub fn plus_days(&self, days: u32) -> (t: Timestamp)
        ensures
            t == self.plus_days_spec(days),
            t.secs() == clamp_seconds(self.secs() + days * SECONDS_PER_DAY),
            t.subsec() == self.subsec(),
    {
        proof {
            use_type_invariant(self);
        }
        let span: i64 = (days as i64) * SECONDS_PER_DAY;
        Timestamp::clamped(self.seconds + span, self.nanos)
    }

    /// The instant `days` days earlier, or the first supported instant of that
    /// sub-second if that would lie before it.
    pub closed spec fn minus_days_spec(self, days: u32) -> Timestamp {
        Timestamp {
            seconds: clamp_seconds(self.seconds - days * SECONDS_PER_DAY) as i64,
            nanos: self.nanos,
        }
    }

    /// The instant `days` days later, or the last supported instant of that
    /// sub-second if that would lie beyond it.
    pub closed spec fn plus_days_spec(self, days: u32) -> Timestamp {
        Timestamp {
            seconds: clamp_seconds(self.seconds + days * SECONDS_PER_DAY) as i64,
            nanos: self.nanos,
        }
    }

    /// The instant `days` days earlier, or the first supported instant of that
    /// sub-second if that would lie before it.
    pub fn minus_days(&self, days: u32) -> (t: Timestamp)
        ensures
            t == self.minus_days_spec(days),
            t.secs() == clamp_seconds(self.secs() - days * SECONDS_PER_DAY),
            t.subsec() == self.subsec(),
    {
        proof {
            use_type_invariant(self);
        }
        let span: i64 = (days as i64) * SECONDS_PER_DAY;
        Timestamp::clamped(self.seconds - span, self.nanos)
    }

    /// Whether this instant lies strictly before `other`.
    pub fn is_before(&self, other: &Timestamp) -> (before: bool)
        ensures
            before == (self.secs() < other.secs() || (self.secs() == other.secs() && self.subsec()
                < other.subsec())),
    {
        self.seconds < other.seconds || (self.seconds == other.seconds && self.nanos < other.nanos)
    }

    /// The instant as RFC 3339 text.
    pub open spec fn rfc3339(self) -> Seq<char> {
        rfc3339_text(self.secs() as i64, self.subsec() as u32)
    }

    /// The instant as RFC 3339 text, such as `2024-01-01T12:00:00+00:00`.
    pub fn to_rfc3339(&self) -> (text: String)
        ensures
            text@ == self.rfc3339(),
    {
        proof {
            use_type_invariant(self);
        }
        render_rfc3339(self.seconds, self.nanos)
    }

    /// Date, time and milliseconds of the instant, as written into the names of
    /// backup files: `YYYYMMDD_HHMMSS_mmm`.
    pub fn backup_stamp(&self) -> (text: String)
        ensures
            text@ == backup_stamp_text(self.secs() as i64, self.subsec() as u32),
    {
        proof {
            use_type_invariant(self);
        }
        render_backup_stamp(self.seconds, self.nanos)
    }
}

} // verus!
