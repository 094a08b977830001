//! Calendar computations done by chrono and chrono-tz. Each result is named by
//! a spec function of the arguments; a zone is given by its IANA name.

use vstd::prelude::*;

verus! {

/// The text `YYYY-MM-DD HH:MM:SS` of instant `epoch` in zone `zone`, if the
/// zone is known and the instant representable.
pub uninterp spec fn local_text(epoch: i64, zone: Seq<char>) -> Option<Seq<char>>;

/// The instant that an RFC 3339 date-time denotes, in whole seconds.
pub uninterp spec fn rfc3339_seconds(s: Seq<char>) -> Option<i64>;

/// The seconds that a `YYYY-MM-DD HH:MM:SS` text denotes when read as UTC.
pub uninterp spec fn display_seconds(s: Seq<char>) -> Option<i64>;

/// The calendar date (year, month, day) of instant `now` in zone `zone`,
/// if the zone is known and that date is representable.
pub uninterp spec fn local_date(now: i64, zone: Seq<char>) -> Option<(i32, u32, u32)>;

/// The calendar day after the date (year, month, day), if both are valid
/// and representable.
pub uninterp spec fn date_after(y: i32, m: u32, d: u32) -> Option<(i32, u32, u32)>;

/// The instants at which the local wall-clock time `y-m-d h:mi:s` occurs in
/// zone `zone`, if the zone is known and the date and time are valid.
pub uninterp spec fn local_instants(
    y: i32,
    m: u32,
    d: u32,
    h: u32,
    mi: u32,
    sec: u32,
    zone: Seq<char>,
) -> Option<LocalInstants>;

/// How often a local wall-clock time occurs: not at all (it falls into a
/// gap), once, or twice (it falls into a fold), with the instants in seconds.
#[derive(Debug, Clone, Copy, PartialEq, Eq, Structural)]
pub enum LocalInstants {
    Skipped,
    Once(i64),
    Twice(i64, i64),
}

pub open spec fn text_view(o: Option<String>) -> Option<Seq<char>> {
    match o {
        Some(t) => Some(t@),
        None => None,
    }
}

/// Relies on `chrono_tz::Tz::from_str`, `chrono::DateTime::from_timestamp`,
/// `with_timezone` and `format`: the local wall-clock text of an instant.
#[verifier::external_body]
pub(crate) fn format_local(epoch: i64, zone: &str) -> (r: Option<String>)
    ensures
        text_view(r) == local_text(epoch, zone@),
{
    let tz: chrono_tz::Tz = match zone.parse() {
        Ok(tz) => tz,
        Err(_) => return None,
    };
    chrono::DateTime::from_timestamp(epoch, 0)
        .map(|dt| dt.with_timezone(&tz).format("%Y-%m-%d %H:%M:%S").to_string())
}

/// Relies on `chrono::DateTime::parse_from_rfc3339` and `timestamp`.
#[verifier::external_body]
pub(crate) fn parse_rfc3339(s: &str) -> (r: Option<i64>)
    ensures
        r == rfc3339_seconds(s@),
{
    chrono::DateTime::parse_from_rfc3339(s).ok().map(|dt| dt.timestamp())
}

/// Relies on `chrono::NaiveDateTime::parse_from_str` with the format
/// `%Y-%m-%d %H:%M:%S`, then `and_utc` and `timestamp`.
#[verifier::external_body]
pub(crate) fn parse_display_time(s: &str) -> (r: Option<i64>)
    ensures
        r == display_seconds(s@),
{
    chrono::NaiveDateTime::parse_from_str(s, "%Y-%m-%d %H:%M:%S").ok().map(
        |dt| dt.and_utc().timestamp(),
    )
}

/// Relies on `chrono_tz::Tz::from_str`, `chrono::DateTime::from_timestamp`,
/// `TimeZone::offset_from_utc_datetime` and
/// `NaiveDateTime::checked_add_offset`: the local calendar date of an
/// instant.
#[verifier::external_body]
pub(crate) fn local_date_of(now: i64, zone: &str) -> (r: Option<(i32, u32, u32)>)
    ensures
        r == local_date(now, zone@),
{
    let tz: chrono_tz::Tz = zone.parse().ok()?;
    let utc = chrono::DateTime::from_timestamp(now, 0)?.naive_utc();
    let offset = chrono::Offset::fix(&chrono::TimeZone::offset_from_utc_datetime(&tz, &utc));
    let local = utc.checked_add_offset(offset)?;
    Some((chrono::Datelike::year(&local), chrono::Datelike::month(&local), chrono::Datelike::day(&local)))
}

/// Relies on `chrono::NaiveDate::from_ymd_opt` and `succ_opt`: the next
/// calendar day.
#[verifier::external_body]
pub(crate) fn next_date(y: i32, m: u32, d: u32) -> (r: Option<(i32, u32, u32)>)
    ensures
        r == date_after(y, m, d),
{
    let next = chrono::NaiveDate::from_ymd_opt(y, m, d)?.succ_opt()?;
    Some((chrono::Datelike::year(&next), chrono::Datelike::month(&next), chrono::Datelike::day(&next)))
}

/// Relies on `chrono_tz::Tz::from_str`, `chrono::NaiveDate::from_ymd_opt`,
/// `and_hms_opt` and `TimeZone::from_local_datetime`: each variant of the
/// `LocalResult` it returns is carried over as it stands.
#[verifier::external_body]
pub(crate) fn local_instants_of(y: i32, m: u32, d: u32, h: u32, mi: u32, sec: u32, zone: &str) -> (r: Option<LocalInstants>)
    ensures
        r == local_instants(y, m, d, h, mi, sec, zone@),
{
    let tz: chrono_tz::Tz = zone.parse().ok()?;
    let local = chrono::NaiveDate::from_ymd_opt(y, m, d)?.and_hms_opt(h, mi, sec)?;
    Some(match chrono::TimeZone::from_local_datetime(&tz, &local) {
        chrono::LocalResult::None => LocalInstants::Skipped,
        chrono::LocalResult::Single(t) => LocalInstants::Once(t.timestamp()),
        chrono::LocalResult::Ambiguous(a, b) => LocalInstants::Twice(a.timestamp(), b.timestamp()),
    })
}

/// The midnight to act on: the one instant, or the later of two; none where
/// midnight is skipped.
pub open spec fn chosen_instant(i: Option<LocalInstants>) -> Option<i64> {
    match i {
        Some(LocalInstants::Once(t)) => Some(t),
        Some(LocalInstants::Twice(a, b)) => Some(if a >= b { a } else { b }),
        _ => None,
    }
}

/// The next local midnight after `now` in `zone`: 00:00:00 of the day after
/// the local date of `now`; where that time occurs twice, the later instant.
pub open spec fn next_midnight(now: i64, zone: Seq<char>) -> Option<i64> {
    match local_date(now, zone) {
        Some((y, m, d)) => match date_after(y, m, d) {
            Some((y2, m2, d2)) => chosen_instant(local_instants(y2, m2, d2, 0, 0, 0, zone)),
            None => None,
        },
        None => None,
    }
}

/// The instant of the next local midnight after `now` (seconds since the
/// epoch) in `zone`; where midnight occurs twice, the later of the two.
pub fn next_local_midnight(now: i64, zone: &str) -> (r: Option<i64>)
    ensures
        r == next_midnight(now, zone@),
{
    let today = match local_date_of(now, zone) {
        Some(t) => t,
        None => return None,
    };
    let tomorrow = match next_date(today.0, today.1, today.2) {
        Some(t) => t,
        None => return None,
    };
    match local_instants_of(tomorrow.0, tomorrow.1, tomorrow.2, 0, 0, 0, zone) {
        Some(LocalInstants::Once(t)) => Some(t),
        Some(LocalInstants::Twice(a, b)) => Some(if a >= b { a } else { b }),
        _ => None,
    }
}

/// Where the next local midnight occurs twice (a fold), the later of its
/// two instants is the one taken.
pub proof fn fold_midnight_is_the_later(
    now: i64,
    zone: Seq<char>,
    today: (i32, u32, u32),
    tomorrow: (i32, u32, u32),
    a: i64,
    b: i64,
)
    requires
        local_date(now, zone) == Some(today),
        date_after(today.0, today.1, today.2) == Some(tomorrow),
        local_instants(tomorrow.0, tomorrow.1, tomorrow.2, 0, 0, 0, zone) == Some(
            LocalInstants::Twice(a, b),
        ),
    ensures
        next_midnight(now, zone) == Some(if a >= b { a } else { b }),
        next_midnight(now, zone).unwrap() >= a,
        next_midnight(now, zone).unwrap() >= b,
{
}

} // verus!
