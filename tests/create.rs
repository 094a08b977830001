use voucher_backend::create::{create_command, create_times, select_created};
use voucher_backend::models::{CreateVoucherData, CreateVoucherRequest, RawVoucher, WireCount, WireTime};

fn raw(id: &str, created: WireTime) -> RawVoucher {
    RawVoucher {
        id: id.to_string(),
        created_at: created,
        name: String::new(),
        code: "1".to_string(),
        authorized_guest_limit: WireCount::Absent,
        authorized_guest_count: 0,
        activated_at: None,
        expires_at: None,
        time_limit_minutes: 60,
        data_usage_limit_mbytes: WireCount::Absent,
        tx_rate_limit_kbps: WireCount::Absent,
        rx_rate_limit_kbps: WireCount::Absent,
    }
}

#[test]
fn command_leaves_out_unset_and_zero_limits() {
    let request = CreateVoucherRequest {
        count: 2,
        name: String::new(),
        authorized_guest_limit: Some(0),
        time_limit_minutes: 90,
        data_usage_limit_mbytes: None,
        rx_rate_limit_kbps: Some(300),
        tx_rate_limit_kbps: Some(0),
    };
    let c = create_command(&request);
    assert_eq!(c.count, 2);
    assert_eq!(c.expire_minutes, 90);
    assert_eq!(c.note, None);
    assert_eq!(c.quota, None);
    assert_eq!(c.up_kbps, None);
    assert_eq!(c.down_kbps, Some(300));
    assert_eq!(c.bytes_mb, None);
}

#[test]
fn command_keeps_name_and_positive_limits() {
    let request = CreateVoucherRequest {
        count: 1,
        name: "lobby".to_string(),
        authorized_guest_limit: Some(3),
        time_limit_minutes: 60,
        data_usage_limit_mbytes: Some(1024),
        rx_rate_limit_kbps: None,
        tx_rate_limit_kbps: Some(500),
    };
    let c = create_command(&request);
    assert_eq!(c.note.as_deref(), Some("lobby"));
    assert_eq!(c.quota, Some(3));
    assert_eq!(c.up_kbps, Some(500));
    assert_eq!(c.bytes_mb, Some(1024));
}

#[test]
fn created_vouchers_are_matched_by_time() {
    let raws = vec![
        raw("old", WireTime::Epoch(1_000)),
        raw("new1", WireTime::Epoch(2_000)),
        raw("text", WireTime::Text("2000".to_string())),
        raw("odd", WireTime::Text("later".to_string())),
        raw("new2", WireTime::Epoch(2_000)),
    ];
    let out = select_created(raws, &vec![2_000], 2, 0, "UTC");
    let ids: Vec<&str> = out.iter().map(|v| v.id.as_str()).collect();
    assert_eq!(ids, vec!["new1", "text"]);
    assert_eq!(out[0].created_at, "1970-01-01 00:33:20");
}

#[test]
fn no_match_gives_nothing() {
    let raws = vec![raw("old", WireTime::Epoch(1_000))];
    assert!(select_created(raws, &vec![5], 1, 0, "UTC").is_empty());
}

#[test]
fn create_times_are_listed_in_order() {
    let data = vec![CreateVoucherData { create_time: 7 }, CreateVoucherData { create_time: 3 }];
    assert_eq!(create_times(&data), vec![7, 3]);
}
