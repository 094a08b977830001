use voucher_backend::models::{ApiError, CreateVoucherResponse, Voucher};
use voucher_backend::rolling::{
    auto_rolling_voucher_name, create_rolling_voucher, first_created, guard_rolling_issue,
    rolling_voucher_name, Replenishment,
};
use voucher_backend::voucher_config::{
    default_min_rolling_vouchers, RollingVoucherConfig, VoucherConfig,
};

fn config() -> VoucherConfig {
    VoucherConfig {
        rolling_voucher: RollingVoucherConfig {
            enabled: true,
            duration_minutes: 480,
            download_mbps: Some(10),
            upload_mbps: Some(2),
            data_limit_mb: Some(500),
            min_rolling_vouchers: 3,
        },
    }
}

fn voucher(id: &str, name: &str, expired: bool) -> Voucher {
    Voucher {
        id: id.to_string(),
        created_at: "2024-01-01 10:00:00".to_string(),
        name: name.to_string(),
        code: "0000".to_string(),
        authorized_guest_limit: None,
        authorized_guest_count: 0,
        activated_at: None,
        expires_at: None,
        expired,
        time_limit_minutes: 480,
        data_usage_limit_mbytes: None,
        tx_rate_limit_kbps: None,
        rx_rate_limit_kbps: None,
    }
}

#[test]
fn replenishment_fills_the_deficit_with_distinct_names() {
    let cfg = config();
    let mut r = Replenishment::start(3, 1);
    assert_eq!(r.planned, 2);
    let mut names = Vec::new();
    let mut pauses = 0;
    while let Some(request) = r.next_request(&cfg, "20240101120000") {
        if r.pause_before_next() {
            pauses += 1;
        }
        assert_eq!(request.count, 1);
        names.push(request.name.clone());
        let created = voucher(&format!("n{}", names.len()), &request.name, false);
        r.record(Some(created));
    }
    assert_eq!(names.len(), 2);
    assert_ne!(names[0], names[1]);
    assert_eq!(names[0], "[ROLLING] 20240101120000-auto-0");
    assert_eq!(names[1], "[ROLLING] 20240101120000-auto-1");
    assert_eq!(pauses, 1);
    assert_eq!(r.finish().unwrap().id, "n1");
}

#[test]
fn replenishment_not_needed_when_pool_is_full() {
    let r = Replenishment::start(3, 3);
    assert_eq!(r.planned, 0);
    assert!(r.next_request(&config(), "x").is_none());
    assert!(Replenishment::start(1, 5).finish().is_none());
}

#[test]
fn replenishment_survives_failed_creations() {
    let mut r = Replenishment::start(3, 0);
    r.record(None);
    r.record(Some(voucher("second", "[ROLLING] x-auto-1", false)));
    r.record(Some(voucher("third", "[ROLLING] x-auto-2", false)));
    assert!(r.next_request(&config(), "x").is_none());
    assert_eq!(r.finish().unwrap().id, "second");
}

#[test]
fn rolling_request_carries_the_policy() {
    let q = create_rolling_voucher(&config(), "20240101120000", "192.168.1.20");
    assert_eq!(q.name, "[ROLLING] 20240101120000-192.168.1.20");
    assert_eq!(q.count, 1);
    assert_eq!(q.time_limit_minutes, 480);
    assert_eq!(q.authorized_guest_limit, None);
    assert_eq!(q.tx_rate_limit_kbps, Some(10_000));
    assert_eq!(q.rx_rate_limit_kbps, Some(2_000));
    assert_eq!(q.data_usage_limit_mbytes, Some(500));
}

#[test]
fn rolling_names() {
    assert_eq!(rolling_voucher_name("s", "10.0.0.5"), "[ROLLING] s-10.0.0.5");
    assert_eq!(auto_rolling_voucher_name("s", 0), "[ROLLING] s-auto-0");
    assert_eq!(auto_rolling_voucher_name("s", 1234567890), "[ROLLING] s-auto-1234567890");
}

#[test]
fn guard_refuses_a_second_issue() {
    let list = vec![voucher("a", "[ROLLING] 20240101120000-10.0.0.5", false)];
    assert_eq!(guard_rolling_issue(&list, "10.0.0.5"), Err(ApiError::PolicyViolation));
    assert_eq!(guard_rolling_issue(&list, "10.0.0.6"), Ok(()));
}

#[test]
fn first_created_or_protocol_error() {
    let none = CreateVoucherResponse { vouchers: vec![] };
    assert_eq!(first_created(none).unwrap_err(), ApiError::Protocol);
    let two = CreateVoucherResponse {
        vouchers: vec![voucher("a", "x", false), voucher("b", "y", false)],
    };
    assert_eq!(first_created(two).unwrap().id, "a");
}

#[test]
fn config_defaults_and_rates() {
    let d = RollingVoucherConfig::default();
    assert!(!d.enabled);
    assert_eq!(d.duration_minutes, 1440);
    assert_eq!(d.min_rolling_vouchers, 1);
    assert_eq!(default_min_rolling_vouchers(), 1);
    let cfg = config();
    assert_eq!(cfg.duration_minutes(), 480);
    assert_eq!(cfg.download_kbps(), Some(10_000));
    assert_eq!(cfg.upload_kbps(), Some(2_000));
    assert_eq!(cfg.data_limit_mb(), Some(500));
    let huge = VoucherConfig {
        rolling_voucher: RollingVoucherConfig { download_mbps: Some(u64::MAX), ..d },
    };
    assert_eq!(huge.download_kbps(), Some(u64::MAX));
    assert_eq!(huge.upload_kbps(), None);
}
