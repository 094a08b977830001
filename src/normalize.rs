//! Normalisation of decoded vouchers into the canonical record: timestamps to
//! local display text, optional counts coerced, `expired` recomputed.

use crate::clock::{format_local, local_text, parse_rfc3339, rfc3339_seconds};
use crate::models::{count_value, coerce_count, RawVoucher, Voucher, WireTime};
use crate::text::{decimal_i64, i64_text, parse_i64, signed_decimal};
use vstd::prelude::*;

verus! {

/// The instant a wire timestamp denotes: the number itself, or text read as
/// decimal seconds, else as RFC 3339.
pub open spec fn wire_instant(w: WireTime) -> Option<i64> {
    match w {
        WireTime::Epoch(t) => Some(t),
        WireTime::Text(s) => match decimal_i64(s@) {
            Some(t) => Some(t),
            None => rfc3339_seconds(s@),
        },
    }
}

/// The wire timestamp as text, unchanged.
pub open spec fn wire_text(w: WireTime) -> Seq<char> {
    match w {
        WireTime::Epoch(t) => signed_decimal(t as int),
        WireTime::Text(s) => s@,
    }
}

/// The display text of a wire timestamp in `zone`; a value that cannot be
/// read or shown is passed through as it came.
pub open spec fn display_text(w: WireTime, zone: Seq<char>) -> Seq<char> {
    match wire_instant(w) {
        Some(t) => match local_text(t, zone) {
            Some(x) => x,
            None => wire_text(w),
        },
        None => wire_text(w),
    }
}

pub open spec fn optional_display(w: Option<WireTime>, o: Option<String>, zone: Seq<char>) -> bool {
    match w {
        None => o.is_none(),
        Some(w) => o.is_some() && o.unwrap()@ == display_text(w, zone),
    }
}

/// A voucher is expired when its expiry is an instant before `now`.
pub open spec fn expired_at(expires: Option<WireTime>, now: i64) -> bool {
    match expires {
        Some(w) => match wire_instant(w) {
            Some(t) => t < now,
            None => false,
        },
        None => false,
    }
}

/// `v` is the canonical form of `raw` at time `now` in zone `zone`.
pub open spec fn normalizes_to(raw: RawVoucher, v: Voucher, now: i64, zone: Seq<char>) -> bool {
    &&& v.id@ == raw.id@
    &&& v.created_at@ == display_text(raw.created_at, zone)
    &&& v.name@ == raw.name@
    &&& v.code@ == raw.code@
    &&& v.authorized_guest_limit == count_value(raw.authorized_guest_limit)
    &&& v.authorized_guest_count == raw.authorized_guest_count
    &&& optional_display(raw.activated_at, v.activated_at, zone)
    &&& optional_display(raw.expires_at, v.expires_at, zone)
    &&& v.expired == expired_at(raw.expires_at, now)
    &&& v.time_limit_minutes == raw.time_limit_minutes
    &&& v.data_usage_limit_mbytes == count_value(raw.data_usage_limit_mbytes)
    &&& v.tx_rate_limit_kbps == count_value(raw.tx_rate_limit_kbps)
    &&& v.rx_rate_limit_kbps == count_value(raw.rx_rate_limit_kbps)
}

pub fn wire_instant_of(w: &WireTime) -> (r: Option<i64>)
    ensures
        r == wire_instant(*w),
{
    match w {
        WireTime::Epoch(t) => Some(*t),
        WireTime::Text(s) => match parse_i64(s.as_str()) {
            Some(t) => Some(t),
            None => parse_rfc3339(s.as_str()),
        },
    }
}

/// The display text of a timestamp in `zone`, `YYYY-MM-DD HH:MM:SS`, or the
/// value unchanged where it cannot be read.
pub fn format_unifi_date(w: &WireTime, zone: &str) -> (r: String)
    ensures
        r@ == display_text(*w, zone@),
{
    let passed = match w {
        WireTime::Epoch(t) => i64_text(*t),
        WireTime::Text(s) => s.clone(),
    };
    match wire_instant_of(w) {
        Some(t) => match format_local(t, zone) {
            Some(x) => x,
            None => passed,
        },
        None => passed,
    }
}

fn optional_date(w: &Option<WireTime>, zone: &str) -> (r: Option<String>)
    ensures
        optional_display(*w, r, zone@),
{
    match w {
        Some(w) => Some(format_unifi_date(w, zone)),
        None => None,
    }
}

pub fn is_expired(expires: &Option<WireTime>, now: i64) -> (r: bool)
    ensures
        r == expired_at(*expires, now),
{
    match expires {
        Some(w) => match wire_instant_of(w) {
            Some(t) => t < now,
            None => false,
        },
        None => false,
    }
}

/// The canonical form of one decoded voucher at time `now` (seconds since
/// the epoch), with timestamps shown in `zone`.
pub fn process_voucher(raw: RawVoucher, now: i64, zone: &str) -> (r: Voucher)
    ensures
        normalizes_to(raw, r, now, zone@),
{
    let created_at = format_unifi_date(&raw.created_at, zone);
    let activated_at = optional_date(&raw.activated_at, zone);
    let expires_at = optional_date(&raw.expires_at, zone);
    let expired = is_expired(&raw.expires_at, now);
    Voucher {
        id: raw.id,
        created_at,
        name: raw.name,
        code: raw.code,
        authorized_guest_limit: coerce_count(raw.authorized_guest_limit),
        authorized_guest_count: raw.authorized_guest_count,
        activated_at,
        expires_at,
        expired,
        time_limit_minutes: raw.time_limit_minutes,
        data_usage_limit_mbytes: coerce_count(raw.data_usage_limit_mbytes),
        tx_rate_limit_kbps: coerce_count(raw.tx_rate_limit_kbps),
        rx_rate_limit_kbps: coerce_count(raw.rx_rate_limit_kbps),
    }
}

/// The canonical form of each decoded voucher, in order.
pub fn process_vouchers(raws: Vec<RawVoucher>, now: i64, zone: &str) -> (r: Vec<Voucher>)
    ensures
        r@.len() == raws@.len(),
        forall|i: int| 0 <= i < r@.len() ==> normalizes_to(raws@[i], #[trigger] r@[i], now, zone@),
{
    let mut rest = raws;
    let mut out: Vec<Voucher> = Vec::new();
    let ghost orig = rest@;
    while rest.len() > 0
        invariant
            out@.len() + rest@.len() == orig.len(),
            rest@ == orig.subrange(out@.len() as int, orig.len() as int),
            forall|i: int| 0 <= i < out@.len() ==> normalizes_to(orig[i], #[trigger] out@[i], now, zone@),
        decreases rest@.len(),
    {
        let raw = rest.remove(0);
        let v = process_voucher(raw, now, zone);
        out.push(v);
    }
    out
}

pub open spec fn instant_before(t: Option<i64>, now: i64) -> bool {
    match t {
        Some(t) => t < now,
        None => false,
    }
}

/// Whatever encoding the expiry came in (seconds since the epoch as a
/// number, decimal text, or an RFC 3339 date-time), a voucher whose expiry
/// lies before `now` is expired once normalised.
pub proof fn expiry_in_past_is_expired(raw: RawVoucher, v: Voucher, now: i64, zone: Seq<char>)
    requires
        normalizes_to(raw, v, now, zone),
    ensures
        (raw.expires_at matches Some(WireTime::Epoch(t)) && t < now) ==> v.expired,
        (raw.expires_at matches Some(WireTime::Text(s)) && instant_before(decimal_i64(s@), now)) ==> v.expired,
        (raw.expires_at matches Some(WireTime::Text(s)) && decimal_i64(s@) is None && instant_before(
            rfc3339_seconds(s@),
            now,
        )) ==> v.expired,
{
}

} // verus!
