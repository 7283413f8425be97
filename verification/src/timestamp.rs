//! Points in time, as whole seconds since the Unix epoch and nanoseconds within the second.

use vstd::prelude::*;

verus! {

/// The first second of the calendar that time stamps cover (1 January of the year -262143).
pub const FIRST_SECOND: i64 = -8334601228800;

/// The last second of the calendar that time stamps cover (31 December of the year 262142).
pub const LAST_SECOND: i64 = 8210266876799;

/// A point in time that the calendar can express. A nanosecond count of a full second and more
/// denotes a leap second, which only the last second of a minute can have.
pub open spec fn is_point_in_time(secs: i64, nanos: u32) -> bool {
    &&& FIRST_SECOND <= secs <= LAST_SECOND
    &&& nanos < 2_000_000_000
    &&& nanos >= 1_000_000_000 ==> (secs as int) % 60 == 59
}

/// A point in time in UTC.
#[derive(Clone, Copy, Debug, PartialEq, Eq)]
pub struct Timestamp {
    secs: i64,
    nanos: u32,
}

impl Timestamp {
    #[verifier::type_invariant]
    spec fn expressible(self) -> bool {
        is_point_in_time(self.secs, self.nanos)
    }

    /// Whole seconds since the Unix epoch.
    pub closed spec fn spec_secs(self) -> i64 {
        self.secs
    }

    /// Nanoseconds within the second.
    pub closed spec fn spec_nanos(self) -> u32 {
        self.nanos
    }

    /// The RFC 3339 form of the point in time.
    pub open spec fn rfc3339(self) -> Seq<char> {
        rfc3339_text(self.spec_secs(), self.spec_nanos())
    }

    /// The point in time with the given parts, if the calendar can express it.
    pub fn new(secs: i64, nanos: u32) -> (out: Option<Timestamp>)
        ensures
            out is Some <==> is_point_in_time(secs, nanos),
            out matches Some(t) ==> t.spec_secs() == secs && t.spec_nanos() == nanos,
    {
        if secs < FIRST_SECOND || secs > LAST_SECOND || nanos >= 2_000_000_000 {
            return None;
        }
        if nanos >= 1_000_000_000 && !last_second_of_minute(secs) {
            return None;
        }
        Some(Timestamp { secs, nanos })
    }

    /// Whole seconds since the Unix epoch.
    pub fn secs(&self) -> (out: i64)
        ensures
            out == self.spec_secs(),
    {
        self.secs
    }

    /// Nanoseconds within the second.
    pub fn nanos(&self) -> (out: u32)
        ensures
            out == self.spec_nanos(),
    {
        self.nanos
    }

    /// The RFC 3339 form of the point in time.
    pub fn to_rfc3339(&self) -> (out: String)
        ensures
            out@ == self.rfc3339(),
    {
        proof {
            use_type_invariant(self);
        }
        chrono_rfc3339(self.secs, self.nanos)
    }

    /// The point in time as it reads at an offset from UTC.
    pub open spec fn text_at(self, offset: i32) -> Seq<char> {
        offset_text(self.spec_secs(), self.spec_nanos(), offset, LOCAL_PATTERN@)
    }

    /// The point in time in the time zone of the machine: as it reads at the offset that the time
    /// zone has from UTC, whichever that is.
    pub fn to_local_text(&self) -> (out: String)
        ensures
            exists|offset: i32| is_offset(offset) && out@ == #[trigger] self.text_at(offset),
    {
        proof {
            use_type_invariant(self);
        }
        let offset = chrono_local_offset(self.secs, self.nanos);
        let out = chrono_offset_text(self.secs, self.nanos, offset, LOCAL_PATTERN);
        assert(out@ == self.text_at(offset));
        out
    }
}

/// How a local time is written: date, time of day and offset.
pub const LOCAL_PATTERN: &'static str = "%Y-%m-%d %H:%M:%S %:z";

/// A time zone's offset from UTC in seconds: it is less than a day.
pub open spec fn is_offset(offset: i32) -> bool {
    -DAY_SECONDS < offset < DAY_SECONDS
}

/// The largest offset of a time zone from UTC, in seconds, and one more second.
pub const DAY_SECONDS: i64 = 86400;

/// Whether a second is the last one of its minute.
fn last_second_of_minute(secs: i64) -> (last: bool)
    requires
        FIRST_SECOND <= secs <= LAST_SECOND,
    ensures
        last == ((secs as int) % 60 == 59),
{
    let offset: u64 = (secs - FIRST_SECOND) as u64;
    offset % 60 == 59
}

/// The text that `chrono::DateTime::<Utc>::to_rfc3339` gives for a point in time.
pub uninterp spec fn rfc3339_text(secs: i64, nanos: u32) -> Seq<char>;

/// `chrono::DateTime::<Utc>::to_rfc3339` on the date and time that
/// `chrono::DateTime::from_timestamp` makes of the parts; it makes one of all parts admitted here.
#[verifier::external_body]
fn chrono_rfc3339(secs: i64, nanos: u32) -> (out: String)
    requires
        is_point_in_time(secs, nanos),
    ensures
        out@ == rfc3339_text(secs, nanos),
{
    chrono::DateTime::<chrono::Utc>::from_timestamp(secs, nanos).unwrap().to_rfc3339()
}

/// `chrono::Local.offset_from_utc_datetime` and `FixedOffset::local_minus_utc`, on the date and
/// time that `chrono::DateTime::from_timestamp` makes of the parts. The offset depends on the time
/// zone of the machine; all that is claimed of it is that it is less than a day.
#[verifier::external_body]
fn chrono_local_offset(secs: i64, nanos: u32) -> (offset: i32)
    requires
        is_point_in_time(secs, nanos),
    ensures
        is_offset(offset),
{
    let time = chrono::DateTime::<chrono::Utc>::from_timestamp(secs, nanos).unwrap();
    chrono::TimeZone::offset_from_utc_datetime(&chrono::Local, &time.naive_utc()).local_minus_utc()
}

/// The text that `chrono::DateTime::<FixedOffset>::format` gives for a point in time at an offset,
/// by a pattern.
pub uninterp spec fn offset_text(
    secs: i64,
    nanos: u32,
    offset: i32,
    pattern: Seq<char>,
) -> Seq<char>;

/// `chrono::DateTime::with_timezone` to a `chrono::FixedOffset` and `format`, on the date and time
/// that `chrono::DateTime::from_timestamp` makes of the parts. The time at the offset may lie a day
/// beyond the ends of the calendar: it is formatted there too. Other patterns may be malformed.
#[verifier::external_body]
fn chrono_offset_text(secs: i64, nanos: u32, offset: i32, pattern: &str) -> (out: String)
    requires
        is_point_in_time(secs, nanos),
        is_offset(offset),
        pattern@ == LOCAL_PATTERN@,
    ensures
        out@ == offset_text(secs, nanos, offset, pattern@),
{
    let time = chrono::DateTime::<chrono::Utc>::from_timestamp(secs, nanos).unwrap();
    let zone = chrono::FixedOffset::east_opt(offset).unwrap();
    time.with_timezone(&zone).format(pattern).to_string()
}

/// Every second of the calendar has its nanoseconds, and the last second of a minute a leap second
/// besides. Nothing outside the calendar is a point in time.
pub proof fn leap_seconds_end_minutes(secs: i64, nanos: u32)
    ensures
        -8334601228800 <= secs <= 8210266876799 && nanos < 1_000_000_000 ==> is_point_in_time(
            secs,
            nanos,
        ),
        1_000_000_000 <= nanos < 2_000_000_000 ==> (is_point_in_time(secs, nanos)
            <==> -8334601228800 <= secs <= 8210266876799 && (secs + 1) % 60 == 0),
        is_point_in_time(secs, nanos) ==> -8334601228800 <= secs <= 8210266876799 && nanos
            < 2_000_000_000,
{
}

} // verus!
