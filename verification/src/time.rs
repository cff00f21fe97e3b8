//! Start times: the services send UTC timestamps as text, and the fixture
//! shows them in the machine's local time.

use vstd::prelude::*;

verus! {

/// The timestamp shape of the match services, with milliseconds and offset:
/// "2026-06-11T09:30:00.000+0000".
pub const OFFSET_FORMAT: &'static str = "%Y-%m-%dT%H:%M:%S%.3f%z";
/// The shorter shape without offset, read as UTC: "2026-06-11T09:30:00".
pub const NAIVE_FORMAT: &'static str = "%Y-%m-%dT%H:%M:%S";
/// How a start time is shown: "Thu 11 Jun  7:30PM".
pub const DISPLAY_FORMAT: &'static str = "%a %d %b %l:%M%p";

/// The instant (seconds since the Unix epoch) that `chrono` reads from `s`
/// as a date and time with an offset, in the layout `fmt`; `None` where it
/// does not parse.
pub uninterp spec fn offset_time_parse(s: Seq<char>, fmt: Seq<char>) -> Option<i64>;

/// The instant (seconds since the Unix epoch) that `chrono` reads from `s`
/// as a date and time without offset, taken as UTC, in the layout `fmt`;
/// `None` where it does not parse.
pub uninterp spec fn naive_time_parse(s: Seq<char>, fmt: Seq<char>) -> Option<i64>;

/// `chrono::DateTime::parse_from_str(s, fmt)`, taken to its Unix timestamp
/// (`DateTime::timestamp`). The result is a function of the text and the
/// layout alone, named [`offset_time_parse`]; nothing more is stated.
#[verifier::external_body]
fn parse_offset_timestamp(s: &str, fmt: &str) -> (r: Option<i64>)
    ensures
        r == offset_time_parse(s@, fmt@),
{
    match chrono::DateTime::parse_from_str(s, fmt) {
        Ok(dt) => Some(dt.timestamp()),
        Err(_) => None,
    }
}

/// `chrono::NaiveDateTime::parse_from_str(s, fmt)`, read as UTC
/// (`and_utc`) and taken to its Unix timestamp. The result is a function of
/// the text and the layout alone, named [`naive_time_parse`]; nothing more
/// is stated.
#[verifier::external_body]
fn parse_naive_timestamp(s: &str, fmt: &str) -> (r: Option<i64>)
    ensures
        r == naive_time_parse(s@, fmt@),
{
    match chrono::NaiveDateTime::parse_from_str(s, fmt) {
        Ok(naive) => Some(naive.and_utc().timestamp()),
        Err(_) => None,
    }
}

/// Seconds either side of the Unix epoch (about 190,000 years) within which
/// every instant can be shown: chrono's dates reach past year 262,000 both ways.
pub const DISPLAY_RANGE: i64 = 6_000_000_000_000;

/// The shape of every text in the display layout: a three-letter weekday, a
/// two-digit day, a three-letter month, the hour padded to two places, ':'
/// and two minute digits, then "AM" or "PM": eighteen characters, the colon
/// at index 13.
pub open spec fn display_shaped(t: Seq<char>) -> bool {
    &&& t.len() == 18
    &&& t[13] == ':'
    &&& (t.subrange(16, 18) == seq!['A', 'M'] || t.subrange(16, 18) == seq!['P', 'M'])
}

/// The text `chrono` writes in the display layout for the wall-clock date and
/// time `wall` seconds after 1970-01-01 00:00:00 (no zone attached).
pub uninterp spec fn display_text(wall: int) -> Seq<char>;

/// `chrono::DateTime::from_timestamp(secs, 0)` moved to the machine's time
/// zone (`with_timezone(&Local)`) and written out with `format(fmt)`.
/// Stated: within [`DISPLAY_RANGE`] the timestamp converts, and any text that
/// comes back has the display layout's fixed shape (chrono's strftime table:
/// `%a` and `%b` are always three letters, `%d` and `%M` two digits, `%l` the
/// space-padded hour, `%p` "AM" or "PM"). chrono writes the wall-clock time
/// of the instant, `secs` plus the local offset, which `FixedOffset` keeps
/// strictly within a day either way: the text is [`display_text`] of that
/// wall-clock time. Not stated: which offset that is, since it depends on the
/// machine's time zone. The layout must be the display layout: chrono panics
/// when it writes out an invalid one.
#[verifier::external_body]
fn local_time_text(secs: i64, fmt: &str) -> (r: Option<String>)
    requires
        fmt@ == DISPLAY_FORMAT@,
    ensures
        -DISPLAY_RANGE <= secs <= DISPLAY_RANGE ==> r is Some,
        r matches Some(t) ==> display_shaped(t@),
        r matches Some(t) ==> exists|off: int|
            -86400 < off < 86400 && t@ == #[trigger] display_text(secs + off),
{
    match chrono::DateTime::from_timestamp(secs, 0) {
        Some(dt) => Some(dt.with_timezone(&chrono::Local).format(fmt).to_string()),
        None => None,
    }
}

/// The instant a service timestamp names: the offset layout is tried first,
/// then the layout without offset.
pub open spec fn utc_instant(s: Seq<char>) -> Option<i64> {
    match offset_time_parse(s, OFFSET_FORMAT@) {
        Some(t) => Some(t),
        None => naive_time_parse(s, NAIVE_FORMAT@),
    }
}

/// Parses an AFL API UTC timestamp ("2026-06-11T09:30:00.000+0000" or
/// "2026-06-11T09:30:00") to seconds since the Unix epoch.
pub fn parse_utc(s: &str) -> (r: Option<i64>)
    ensures
        r == utc_instant(s@),
{
    match parse_offset_timestamp(s, OFFSET_FORMAT) {
        Some(t) => Some(t),
        None => parse_naive_timestamp(s, NAIVE_FORMAT),
    }
}

/// The text shown for a start time, given the local rendering of the
/// instant it names (if it names one and it could be rendered): that
/// rendering, or the service's text as it came.
pub fn start_time_text(local: Option<String>, utc: &str) -> (r: String)
    ensures
        r@ == match local {
            Some(t) => t@,
            None => utc@,
        },
{
    match local {
        Some(t) => t,
        None => String::from_str(utc),
    }
}

/// `t` is the display text of the instant `secs` in some time zone: its
/// wall-clock time lies less than a day either side of `secs`.
pub open spec fn shows_instant(t: Seq<char>, secs: i64) -> bool {
    exists|off: int| -86400 < off < 86400 && t == #[trigger] display_text(secs + off)
}

/// A start time in local time for the fixture; text that is not a service
/// timestamp is shown as it came. A timestamp within [`DISPLAY_RANGE`] is
/// shown in the display layout's shape; which date and time it reads depends
/// on the machine's time zone.
pub fn format_start_time(utc: &str) -> (r: String)
    ensures
        utc_instant(utc@) is None ==> r@ == utc@,
        match utc_instant(utc@) {
            Some(t) => -DISPLAY_RANGE <= t <= DISPLAY_RANGE
                ==> display_shaped(r@) && shows_instant(r@, t),
            None => true,
        },
{
    let local = match parse_utc(utc) {
        Some(t) => local_time_text(t, DISPLAY_FORMAT),
        None => None,
    };
    start_time_text(local, utc)
}

} // verus!
