//! Timestamp display. Raw stamps are nanoseconds (older rows: seconds)
//! since 2001-01-01 UTC; the archive library turns them into local display
//! text and readable elapsed times, whose exact wording follows the
//! machine's local calendar. Only what holds on every machine is stated
//! here: when a text exists, and — for the zone-free UTC rendering — what
//! it is.
use vstd::prelude::*;

verus! {

/// The earliest instant chrono can represent, in seconds since the unix
/// epoch.
pub const UTC_SECONDS_MIN: i64 = -8_334_601_228_800;

/// The latest instant chrono can represent, in seconds since the unix
/// epoch.
pub const UTC_SECONDS_MAX: i64 = 8_210_266_876_799;

/// A raw stamp as seconds since the archive epoch: nanosecond-precision
/// stamps (at or above 10^12) are rescaled, second-precision ones pass
/// through.
pub open spec fn rescaled_seconds(stamp: int) -> int {
    if stamp >= 1_000_000_000_000 {
        stamp / 1_000_000_000
    } else {
        stamp
    }
}

/// True when an instant lies in chrono's representable range.
pub open spec fn in_utc_range(secs: int) -> bool {
    UTC_SECONDS_MIN <= secs <= UTC_SECONDS_MAX
}

/// True when rescaling the stamp and adding the epoch offset stays within
/// the stamp type; the archive library adds the two without a check.
pub open spec fn stamp_offset_fits(stamp: int, offset: int) -> bool {
    i64::MIN <= rescaled_seconds(stamp) + offset <= i64::MAX
}

/// True when the display of a raw stamp exists: adding the offset fits and
/// the instant lies on the calendar.
pub open spec fn date_renderable(stamp: int, offset: int) -> bool {
    stamp_offset_fits(stamp, offset) && in_utc_range(rescaled_seconds(stamp) + offset)
}

/// True when a readable elapsed time between two raw stamps exists: both
/// instants renderable, and the end not before the start.
pub open spec fn elapsed_available(start: int, end: int, offset: int) -> bool {
    date_renderable(start, offset) && date_renderable(end, offset) && rescaled_seconds(start)
        <= rescaled_seconds(end)
}

/// The instant of a raw stamp, in seconds since the unix epoch — or
/// nothing when adding the offset would not fit.
pub fn stamp_to_unix_seconds(stamp: i64, offset: i64) -> (r: Option<i64>)
    ensures
        match r {
            Some(s) => stamp_offset_fits(stamp as int, offset as int) && s == rescaled_seconds(
                stamp as int,
            ) + offset,
            None => !stamp_offset_fits(stamp as int, offset as int),
        },
{
    let rescaled: i64 = if stamp >= 1_000_000_000_000 {
        stamp / 1_000_000_000
    } else {
        stamp
    };
    if offset >= 0 {
        if rescaled <= i64::MAX - offset {
            Some(rescaled + offset)
        } else {
            None
        }
    } else {
        if rescaled >= i64::MIN - offset {
            Some(rescaled + offset)
        } else {
            None
        }
    }
}

/// Relies on `imessage_database::util::dates::get_local_time` to turn each
/// raw stamp into an instant and on `readable_diff` to render the elapsed
/// time between the two ("3 minutes"). The wording splits off whole years
/// on the machine's local calendar, so nothing is stated of the text
/// itself; a text comes back exactly when both instants are representable
/// and the end does not precede the start.
#[verifier::external_body]
pub fn readable_between(start: i64, end: i64, offset: i64) -> (r: Option<String>)
    requires
        stamp_offset_fits(start as int, offset as int),
        stamp_offset_fits(end as int, offset as int),
    ensures
        r is Some <==> (in_utc_range(rescaled_seconds(start as int) + offset) && in_utc_range(
            rescaled_seconds(end as int) + offset,
        ) && rescaled_seconds(start as int) <= rescaled_seconds(end as int)),
{
    match (
        imessage_database::util::dates::get_local_time(start, offset),
        imessage_database::util::dates::get_local_time(end, offset),
    ) {
        (Ok(s), Ok(e)) => imessage_database::util::dates::readable_diff(&s, &e),
        _ => None,
    }
}

/// Relies on `imessage_database::util::dates::get_local_time` and `format`:
/// the local display text of one raw stamp. The machine's time zone decides
/// the text, so nothing is stated of it; a text comes back exactly when the
/// instant is representable.
#[verifier::external_body]
pub fn local_date_text(stamp: i64, offset: i64) -> (r: Option<String>)
    requires
        stamp_offset_fits(stamp as int, offset as int),
    ensures
        r is Some <==> in_utc_range(rescaled_seconds(stamp as int) + offset),
{
    imessage_database::util::dates::get_local_time(stamp, offset)
        .ok()
        .map(|d| imessage_database::util::dates::format(&d))
}

/// The UTC display text of an instant, or nothing when it is not
/// representable. UTC has no zone and the month names are fixed, so the
/// text is a function of the seconds alone.
pub uninterp spec fn utc_text(secs: int) -> Option<Seq<char>>;

/// Relies on `chrono::DateTime::from_timestamp` and chrono's formatting
/// with the fixed pattern `%b %d, %Y %l:%M:%S %p`, evaluated in UTC.
#[verifier::external_body]
pub fn utc_date_text(secs: i64) -> (r: Option<String>)
    ensures
        match r {
            Some(t) => utc_text(secs as int) == Some(t@),
            None => utc_text(secs as int) is None,
        },
        r is Some <==> in_utc_range(secs as int),
{
    chrono::DateTime::<chrono::Utc>::from_timestamp(secs, 0)
        .map(|d| d.format("%b %d, %Y %l:%M:%S %p").to_string())
}

} // verus!
