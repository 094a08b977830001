use voucher_backend::models::{coerce_count, RawVoucher, WireCount, WireTime};
use voucher_backend::normalize::{format_unifi_date, process_voucher, process_vouchers};

const NOW: i64 = 1_704_110_400; // 2024-01-01 12:00:00 UTC

fn raw(expires_at: Option<WireTime>) -> RawVoucher {
    RawVoucher {
        id: "v1".to_string(),
        created_at: WireTime::Epoch(1_704_067_200),
        name: "[ROLLING] 20240101000000-10.0.0.5".to_string(),
        code: "12345".to_string(),
        authorized_guest_limit: WireCount::Signed(1),
        authorized_guest_count: 0,
        activated_at: None,
        expires_at,
        time_limit_minutes: 60,
        data_usage_limit_mbytes: WireCount::Absent,
        tx_rate_limit_kbps: WireCount::Flag(true),
        rx_rate_limit_kbps: WireCount::Signed(-3),
    }
}

#[test]
fn epoch_expiry_in_past_is_expired() {
    let v = process_voucher(raw(Some(WireTime::Epoch(NOW - 1))), NOW, "UTC");
    assert!(v.expired);
    assert_eq!(v.expires_at.as_deref(), Some("2024-01-01 11:59:59"));
}

#[test]
fn rfc3339_expiry_in_past_is_expired() {
    let text = WireTime::Text("2024-01-01T11:00:00Z".to_string());
    let v = process_voucher(raw(Some(text)), NOW, "UTC");
    assert!(v.expired);
    assert_eq!(v.expires_at.as_deref(), Some("2024-01-01 11:00:00"));
}

#[test]
fn decimal_text_expiry_in_past_is_expired() {
    let text = WireTime::Text((NOW - 60).to_string());
    let v = process_voucher(raw(Some(text)), NOW, "UTC");
    assert!(v.expired);
}

#[test]
fn future_expiry_is_not_expired() {
    let v = process_voucher(raw(Some(WireTime::Epoch(NOW + 3600))), NOW, "UTC");
    assert!(!v.expired);
    let text = WireTime::Text("2024-01-02T00:00:00+00:00".to_string());
    let v = process_voucher(raw(Some(text)), NOW, "UTC");
    assert!(!v.expired);
}

#[test]
fn missing_or_unreadable_expiry_is_not_expired() {
    let v = process_voucher(raw(None), NOW, "UTC");
    assert!(!v.expired);
    assert!(v.expires_at.is_none());
    let v = process_voucher(raw(Some(WireTime::Text("soon".to_string()))), NOW, "UTC");
    assert!(!v.expired);
    assert_eq!(v.expires_at.as_deref(), Some("soon"));
}

#[test]
fn normalised_fields_are_coerced() {
    let v = process_voucher(raw(None), NOW, "UTC");
    assert_eq!(v.id, "v1");
    assert_eq!(v.created_at, "2024-01-01 00:00:00");
    assert_eq!(v.authorized_guest_limit, Some(1));
    assert_eq!(v.data_usage_limit_mbytes, None);
    assert_eq!(v.tx_rate_limit_kbps, Some(0));
    assert_eq!(v.rx_rate_limit_kbps, None);
    assert_eq!(v.time_limit_minutes, 60);
}

#[test]
fn dates_are_shown_in_the_zone() {
    assert_eq!(format_unifi_date(&WireTime::Epoch(0), "UTC"), "1970-01-01 00:00:00");
    assert_eq!(format_unifi_date(&WireTime::Epoch(0), "Europe/Berlin"), "1970-01-01 01:00:00");
    assert_eq!(
        format_unifi_date(&WireTime::Text("1704067200".to_string()), "America/New_York"),
        "2023-12-31 19:00:00"
    );
    assert_eq!(
        format_unifi_date(&WireTime::Text("2024-06-01T12:00:00+02:00".to_string()), "UTC"),
        "2024-06-01 10:00:00"
    );
}

#[test]
fn unreadable_dates_pass_through() {
    assert_eq!(format_unifi_date(&WireTime::Text("not a date".to_string()), "UTC"), "not a date");
    assert_eq!(format_unifi_date(&WireTime::Epoch(i64::MIN), "UTC"), "-9223372036854775808");
    assert_eq!(format_unifi_date(&WireTime::Epoch(0), "Nowhere/Unknown"), "0");
}

#[test]
fn counts_are_coerced() {
    assert_eq!(coerce_count(WireCount::Flag(true)), Some(0));
    assert_eq!(coerce_count(WireCount::Flag(false)), None);
    assert_eq!(coerce_count(WireCount::Absent), None);
    assert_eq!(coerce_count(WireCount::Signed(-1)), None);
    assert_eq!(coerce_count(WireCount::Signed(0)), Some(0));
    assert_eq!(coerce_count(WireCount::Signed(42)), Some(42));
    assert_eq!(coerce_count(WireCount::Unsigned(u64::MAX)), Some(u64::MAX));
}

#[test]
fn process_vouchers_keeps_order() {
    let mut second = raw(None);
    second.id = "v2".to_string();
    let out = process_vouchers(vec![raw(None), second], NOW, "UTC");
    assert_eq!(out.len(), 2);
    assert_eq!(out[0].id, "v1");
    assert_eq!(out[1].id, "v2");
}
