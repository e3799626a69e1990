//! Points in time, kept as seconds and nanoseconds since the Unix epoch, in UTC.
use vstd::prelude::*;

verus! {

/// Whether `chrono::DateTime::<Utc>::from_timestamp` accepts the seconds and
/// nanoseconds: the day, counted from the epoch, must lie between -96465292 and
/// 95026236 (chrono's first and last dates), and the nanoseconds must be under
/// two billion, one billion or more only in the last second of a minute (a
/// leap second).
pub open spec fn chrono_accepts(seconds: int, nanoseconds: int) -> bool {
    let day = seconds / 86400;
    let second_of_day = seconds % 86400;
    &&& -96465292 <= day <= 95026236
    &&& 0 <= nanoseconds < 2_000_000_000
    &&& nanoseconds >= 1_000_000_000 ==> second_of_day % 60 == 59
}

/// What `DateTime::to_rfc3339` writes for the point in time.
pub uninterp spec fn rfc3339_text(seconds: int, nanoseconds: int) -> Seq<char>;

/// What the `Display` impl of `DateTime<Utc>` writes for the point in time.
pub uninterp spec fn display_text(seconds: int, nanoseconds: int) -> Seq<char>;

/// Calls `chrono::DateTime::<Utc>::from_timestamp` and tells whether it gave a time.
/// Trusted: as chrono's source shows, it gives one exactly when the day is within
/// the range of its dates and the time of day is valid.
#[verifier::external_body]
fn timestamp_accepted(seconds: i64, nanoseconds: u32) -> (r: bool)
    ensures
        r == chrono_accepts(seconds as int, nanoseconds as int),
{
    chrono::DateTime::<chrono::Utc>::from_timestamp(seconds, nanoseconds).is_some()
}

/// Calls `DateTime::to_rfc3339` on the time that `from_timestamp` makes of the numbers.
/// Trusted: the text is a function of the two numbers.
#[verifier::external_body]
fn rfc3339_of(seconds: i64, nanoseconds: u32) -> (r: String)
    requires
        chrono_accepts(seconds as int, nanoseconds as int),
    ensures
        r@ == rfc3339_text(seconds as int, nanoseconds as int),
{
    chrono::DateTime::<chrono::Utc>::from_timestamp(seconds, nanoseconds).unwrap().to_rfc3339()
}

/// Formats, with `Display`, the time that `from_timestamp` makes of the numbers.
/// Trusted: the text is a function of the two numbers.
#[verifier::external_body]
fn display_of(seconds: i64, nanoseconds: u32) -> (r: String)
    requires
        chrono_accepts(seconds as int, nanoseconds as int),
    ensures
        r@ == display_text(seconds as int, nanoseconds as int),
{
    chrono::DateTime::<chrono::Utc>::from_timestamp(seconds, nanoseconds).unwrap().to_string()
}

/// A point in time in UTC that `chrono` can represent.
pub struct UtcTime {
    seconds: i64,
    nanoseconds: u32,
}

impl UtcTime {
    #[verifier::type_invariant]
    spec fn inv(self) -> bool {
        chrono_accepts(self.seconds as int, self.nanoseconds as int)
    }

    /// Seconds since the Unix epoch.
    pub closed spec fn secs(self) -> i64 {
        self.seconds
    }

    /// Nanoseconds past the second.
    pub closed spec fn nanos(self) -> u32 {
        self.nanoseconds
    }

    /// The time with these seconds and nanoseconds since the epoch, when `chrono` accepts them.
    pub fn from_timestamp(seconds: i64, nanoseconds: u32) -> (r: Option<UtcTime>)
        ensures
            r is Some <==> chrono_accepts(seconds as int, nanoseconds as int),
            r matches Some(t) ==> t.secs() == seconds && t.nanos() == nanoseconds,
    {
        if timestamp_accepted(seconds, nanoseconds) {
            Some(UtcTime { seconds, nanoseconds })
        } else {
            None
        }
    }

    /// Seconds since the Unix epoch.
    pub fn seconds(&self) -> (r: i64)
        ensures
            r == self.secs(),
    {
        self.seconds
    }

    /// Nanoseconds past the second.
    pub fn nanoseconds(&self) -> (r: u32)
        ensures
            r == self.nanos(),
    {
        self.nanoseconds
    }

    /// The time in RFC 3339 form, as `DateTime::to_rfc3339` writes it.
    pub fn to_rfc3339(&self) -> (r: String)
        ensures
            r@ == rfc3339_text(self.secs() as int, self.nanos() as int),
    {
        proof {
            use_type_invariant(self);
        }
        rfc3339_of(self.seconds, self.nanoseconds)
    }

    /// The time as `DateTime<Utc>` displays it.
    pub fn to_display(&self) -> (r: String)
        ensures
            r@ == display_text(self.secs() as int, self.nanos() as int),
    {
        proof {
            use_type_invariant(self);
        }
        display_of(self.seconds, self.nanoseconds)
    }
}

} // verus!
