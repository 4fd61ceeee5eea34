use chrono::{Datelike, Timelike};
use vstd::prelude::*;

verus! {

/// An absolute instant: whole seconds since the Unix epoch (UTC) and the
/// nanoseconds past that second.
#[derive(Clone, Copy, Debug, PartialEq, Eq, Structural)]
pub struct Instant {
    pub secs: i64,
    pub nanos: u32,
}

/// The first second that chrono's `DateTime<Utc>` holds, that of
/// -262143-01-01T00:00:00Z.
pub const MIN_SECS: i64 = -8334601228800;

/// The last second that chrono's `DateTime<Utc>` holds, that of
/// +262142-12-31T23:59:59Z.
pub const MAX_SECS: i64 = 8210266876799;

impl Instant {
    /// The instant lies in the range that a `DateTime<Utc>` holds, with fewer
    /// than a second of nanoseconds.
    pub open spec fn wf(&self) -> bool {
        &&& MIN_SECS <= self.secs <= MAX_SECS
        &&& self.nanos < 1_000_000_000
    }

    /// Whether the instant lies in the range that a `DateTime<Utc>` holds.
    pub fn is_valid(&self) -> (r: bool)
        ensures
            r == self.wf(),
    {
        MIN_SECS <= self.secs && self.secs <= MAX_SECS && self.nanos < 1_000_000_000
    }
}

/// A wall-clock date and time without any time zone, as a camera records it.
/// `nano` may exceed 999_999_999 to stand for a leap second.
#[derive(Clone, Copy, Debug, PartialEq, Eq, Structural)]
pub struct NaiveTimestamp {
    pub year: i32,
    pub month: u32,
    pub day: u32,
    pub hour: u32,
    pub minute: u32,
    pub second: u32,
    pub nano: u32,
}

/// The pattern of a capture time inside an image: `YYYY:MM:DD HH:MM:SS`.
pub const CAPTURE_TIME_FORMAT: &'static str = "%Y:%m:%d %H:%M:%S";

/// What chrono's `NaiveDateTime::parse_from_str(s, fmt)` yields, as
/// (year, month, day, hour, minute, second, nanosecond); `None` on a parse error.
pub uninterp spec fn parsed_naive(s: Seq<char>, fmt: Seq<char>) -> Option<(i32, u32, u32, u32, u32, u32, u32)>;

/// The text that chrono's serde support writes for a `NaiveDateTime` with these
/// fields (its `Debug` form, e.g. `1986-04-27T07:30:00`); `None` where chrono
/// holds no such date and time.
pub uninterp spec fn naive_text(year: i32, month: u32, day: u32, hour: u32, minute: u32, second: u32, nano: u32) -> Option<Seq<char>>;

/// The text that chrono's serde support writes for the `DateTime<Utc>` at this
/// instant (RFC 3339, `Z` for UTC, e.g. `1986-04-27T07:30:00Z`); `None` where
/// chrono holds no such instant.
pub uninterp spec fn utc_text(secs: i64, nanos: u32) -> Option<Seq<char>>;

/// A parse result as a timestamp.
pub open spec fn timestamp_of(p: Option<(i32, u32, u32, u32, u32, u32, u32)>) -> Option<NaiveTimestamp> {
    match p {
        Some(p) => Some(
            NaiveTimestamp { year: p.0, month: p.1, day: p.2, hour: p.3, minute: p.4, second: p.5, nano: p.6 },
        ),
        None => None,
    }
}

/// The characters of an optional string.
pub open spec fn opt_text(o: Option<String>) -> Option<Seq<char>> {
    match o {
        Some(s) => Some(s@),
        None => None,
    }
}

/// The timestamp names a date and time that chrono holds, so that it has a text.
pub open spec fn renders(t: NaiveTimestamp) -> bool {
    naive_text(t.year, t.month, t.day, t.hour, t.minute, t.second, t.nano) is Some
}

/// Relies on chrono's `NaiveDateTime::parse_from_str`: the result depends on
/// the text and the pattern alone, and its fields are those of a
/// `NaiveDateTime`, which `NaiveDate::from_ymd_opt` and `and_hms_nano_opt`
/// build again.
#[verifier::external_body]
fn parse_naive(s: &str, fmt: &str) -> (r: Option<NaiveTimestamp>)
    ensures
        r == timestamp_of(parsed_naive(s@, fmt@)),
        r is Some ==> renders(r->Some_0),
{
    match chrono::NaiveDateTime::parse_from_str(s, fmt) {
        Ok(t) => Some(NaiveTimestamp {
            year: t.year(),
            month: t.month(),
            day: t.day(),
            hour: t.hour(),
            minute: t.minute(),
            second: t.second(),
            nano: t.nanosecond(),
        }),
        Err(_) => None,
    }
}

/// Relies on chrono's `NaiveDate::from_ymd_opt` and `and_hms_nano_opt`, then
/// the `Debug` form that chrono's serde support writes for a `NaiveDateTime`.
#[verifier::external_body]
fn format_naive(t: NaiveTimestamp) -> (r: Option<String>)
    ensures
        opt_text(r) == naive_text(t.year, t.month, t.day, t.hour, t.minute, t.second, t.nano),
{
    match chrono::NaiveDate::from_ymd_opt(t.year, t.month, t.day) {
        Some(d) => match d.and_hms_nano_opt(t.hour, t.minute, t.second, t.nano) {
            Some(dt) => Some(format!("{:?}", dt)),
            None => None,
        },
        None => None,
    }
}

/// Relies on chrono's `DateTime::from_timestamp` and `to_rfc3339_opts` with
/// `SecondsFormat::AutoSi` and `Z`, the form that chrono's serde support
/// writes. `from_timestamp` gives `None` only for seconds out of the range
/// of `NaiveDate` (MIN_SECS to MAX_SECS) or an invalid nanosecond.
#[verifier::external_body]
fn format_utc(secs: i64, nanos: u32) -> (r: Option<String>)
    ensures
        opt_text(r) == utc_text(secs, nanos),
        MIN_SECS <= secs <= MAX_SECS && nanos < 1_000_000_000 ==> r is Some,
{
    match chrono::DateTime::from_timestamp(secs, nanos) {
        Some(dt) => Some(dt.to_rfc3339_opts(chrono::SecondsFormat::AutoSi, true)),
        None => None,
    }
}

/// Reads a capture time written as `YYYY:MM:DD HH:MM:SS`; `None` where the
/// text does not have that shape or names no valid date and time.
pub fn parse_capture_time(s: &str) -> (r: Option<NaiveTimestamp>)
    ensures
        r == timestamp_of(parsed_naive(s@, CAPTURE_TIME_FORMAT@)),
        r is Some ==> renders(r->Some_0),
{
    parse_naive(s, CAPTURE_TIME_FORMAT)
}

impl NaiveTimestamp {
    /// The timestamp as a JSON string value carries it, without offset.
    pub fn to_text(&self) -> (r: Option<String>)
        ensures
            opt_text(r) == naive_text(self.year, self.month, self.day, self.hour, self.minute, self.second, self.nano),
            renders(*self) ==> r is Some,
    {
        format_naive(*self)
    }
}

impl Instant {
    /// The instant as a JSON string value carries it, in RFC 3339 with `Z`.
    pub fn to_text(&self) -> (r: Option<String>)
        ensures
            opt_text(r) == utc_text(self.secs, self.nanos),
            self.wf() ==> r is Some,
    {
        format_utc(self.secs, self.nanos)
    }
}

} // verus!
