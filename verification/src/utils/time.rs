//! Rendering of the remote manager's timestamps as fixed-width text.
//!
//! The calendar arithmetic and the rendering itself are done by the `time`
//! crate; this module decides when there is nothing to render, and which
//! wall-clock reading is rendered.

use vstd::prelude::*;

verus! {

/// Description of the date-only form, `2006-01-02`.
pub const DATE_ONLY_FMT: &'static str = "[year]-[month]-[day]";

/// Description of the date-and-time form, `2006-01-02 15:04:05`.
pub const DATETIME_FMT: &'static str = "[year]-[month]-[day] [hour]:[minute]:[second]";

/// Nanoseconds in a second.
pub const NANOS_PER_SECOND: i128 = 1_000_000_000;

/// An instant together with the UTC offset of the wall clock it is read on.
///
/// Two timestamps denote the same instant when their `unix_nanos` agree,
/// whatever their offsets; the offset only selects the wall clock that
/// [`format_datetime`] renders.
#[derive(Clone, Copy, Debug)]
pub struct Timestamp {
    /// Nanoseconds since 1970-01-01T00:00:00Z; negative before it.
    pub unix_nanos: i128,
    /// Seconds that the wall clock is ahead of UTC; negative west of Greenwich.
    pub offset_seconds: i32,
}

impl Timestamp {
    /// Whether this is the epoch itself, which the model uses for "never observed".
    pub open spec fn is_epoch(self) -> bool {
        self.unix_nanos == 0
    }

    /// What the wall clock reads at this instant, in nanoseconds since it read
    /// 1970-01-01T00:00:00.
    pub open spec fn wall_clock_nanos(self) -> int {
        self.unix_nanos + self.offset_seconds * NANOS_PER_SECOND
    }

    pub fn new(unix_nanos: i128, offset_seconds: i32) -> (ts: Timestamp)
        ensures
            ts.unix_nanos == unix_nanos,
            ts.offset_seconds == offset_seconds,
    {
        Timestamp { unix_nanos, offset_seconds }
    }

    /// What the wall clock reads at this instant, where that fits 128 bits.
    pub fn wall_clock(&self) -> (reading: Option<i128>)
        ensures
            reading is Some <==> i128::MIN <= self.wall_clock_nanos() <= i128::MAX,
            reading is Some ==> reading->0 == self.wall_clock_nanos(),
    {
        let shift: i128 = self.offset_seconds as i128 * NANOS_PER_SECOND;
        self.unix_nanos.checked_add(shift)
    }
}

/// What the `time` crate renders, under the format description `description`,
/// for the date-time whose wall clock reads `wall_clock_nanos` nanoseconds after
/// 1970-01-01T00:00:00 and is `offset_seconds` ahead of UTC; `None` where it
/// renders nothing.
pub uninterp spec fn offset_datetime_text(wall_clock_nanos: int, offset_seconds: int, description: Seq<char>) -> Option<Seq<char>>;

/// What the `time` crate renders for the UTC date-time `unix_seconds` whole
/// seconds after the epoch under the format description `description`; `None`
/// where it renders nothing.
pub uninterp spec fn utc_datetime_text(unix_seconds: int, description: Seq<char>) -> Option<Seq<char>>;

/// `time::OffsetDateTime::format`, on the date-time that the plain values stand for.
///
/// Not proved: that the result is a function of the three arguments alone, which
/// is what [`offset_datetime_text`] names. The text is absent when the wall-clock
/// reading is outside the calendar range of `time`, when the offset is not one
/// that `time` accepts, when `description` is not a valid description, or when
/// `format` reports an error.
#[verifier::external_body]
fn format_offset_datetime(wall_clock_nanos: i128, offset_seconds: i32, description: &str) -> (text:
    Option<Box<str>>)
    ensures
        text.deep_view() == offset_datetime_text(
            wall_clock_nanos as int,
            offset_seconds as int,
            description@,
        ),
{
    let reading = ::time::OffsetDateTime::from_unix_timestamp_nanos(wall_clock_nanos).ok()?;
    let offset = ::time::UtcOffset::from_whole_seconds(offset_seconds).ok()?;
    let items = ::time::format_description::parse_borrowed::<1>(description).ok()?;
    reading.replace_offset(offset).format(&items).ok().map(String::into_boxed_str)
}

/// `time::UtcDateTime::format`, on the date-time `unix_seconds` after the epoch.
///
/// Not proved: that the result is a function of the two arguments alone, which
/// is what [`utc_datetime_text`] names. The text is absent when
/// `UtcDateTime::from_unix_timestamp` rejects the count of seconds, when
/// `description` is not a valid description, or when `format` reports an error.
#[verifier::external_body]
fn format_utc_datetime(unix_seconds: i64, description: &str) -> (text: Option<String>)
    ensures
        text.deep_view() == utc_datetime_text(unix_seconds as int, description@),
{
    let utc = ::time::UtcDateTime::from_unix_timestamp(unix_seconds).ok()?;
    let items = ::time::format_description::parse_borrowed::<1>(description).ok()?;
    utc.format(&items).ok()
}

/// Renders `dt` as `2006-01-02 15:04:05` on its own wall clock.
///
/// The epoch stands for "never observed" and renders as nothing, on whatever
/// wall clock it is read. So does an instant whose wall-clock reading does not
/// fit 128 bits.
pub fn format_datetime(dt: Timestamp) -> (text: Option<Box<str>>)
    ensures
        dt.is_epoch() ==> text is None,
        !(i128::MIN <= dt.wall_clock_nanos() <= i128::MAX) ==> text is None,
        !dt.is_epoch() && i128::MIN <= dt.wall_clock_nanos() <= i128::MAX ==> text.deep_view()
            == offset_datetime_text(dt.wall_clock_nanos(), dt.offset_seconds as int, DATETIME_FMT@),
{
    if dt.unix_nanos == 0 {
        return None;
    }
    match dt.wall_clock() {
        Some(wall_clock_nanos) => format_offset_datetime(
            wall_clock_nanos,
            dt.offset_seconds,
            DATETIME_FMT,
        ),
        None => None,
    }
}

/// Renders the UTC day of `ts`, whole seconds since the epoch, as `2006-01-02`.
///
/// A count that does not fit a signed 64-bit integer renders as nothing.
pub fn format_timestamp(ts: u64) -> (text: Option<String>)
    ensures
        ts > i64::MAX ==> text is None,
        ts <= i64::MAX ==> text.deep_view() == utc_datetime_text(ts as int, DATE_ONLY_FMT@),
{
    if ts > i64::MAX as u64 {
        return None;
    }
    format_utc_datetime(ts as i64, DATE_ONLY_FMT)
}

} // verus!
