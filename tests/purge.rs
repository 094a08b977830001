use voucher_backend::clock::next_local_midnight;
use voucher_backend::models::Voucher;
use voucher_backend::purge::{
    delete_expired_rolling_vouchers, delete_expired_vouchers, delete_targets,
    delete_vouchers_by_ids, parse_delete_ids, plan_daily_purge, purge_delay, reply_confirms, run_daily_purge_delay,
    PURGE_RETRY_SECONDS,
};

fn voucher(id: &str, name: &str, expired: bool) -> Voucher {
    Voucher {
        id: id.to_string(),
        created_at: "2024-01-01 10:00:00".to_string(),
        name: name.to_string(),
        code: "0000".to_string(),
        authorized_guest_limit: None,
        authorized_guest_count: 0,
        activated_at: None,
        expires_at: None,
        expired,
        time_limit_minutes: 60,
        data_usage_limit_mbytes: None,
        tx_rate_limit_kbps: None,
        rx_rate_limit_kbps: None,
    }
}

#[test]
fn two_minutes_before_midnight() {
    // 2024-03-10 23:58:00 UTC
    assert_eq!(run_daily_purge_delay(1_710_115_080, "UTC"), 120);
    // 2024-01-15 23:58:00 in Berlin (22:58 UTC)
    assert_eq!(run_daily_purge_delay(1_705_359_480, "Europe/Berlin"), 120);
}

#[test]
fn ambiguous_midnight_takes_the_later_instant() {
    // Havana falls back from 01:00 to 00:00 on 2024-11-03, so that midnight
    // occurs twice: 04:00 and 05:00 UTC. From 2024-11-02 16:00 UTC:
    let delay = run_daily_purge_delay(1_730_563_200, "America/Havana");
    assert_eq!(delay, 1_730_610_000 - 1_730_563_200);
    assert_ne!(delay, 12 * 3600);
}

#[test]
fn unknown_zone_waits_the_retry_interval() {
    assert_eq!(run_daily_purge_delay(0, "Not/AZone"), PURGE_RETRY_SECONDS);
    assert_eq!(purge_delay(100, None), PURGE_RETRY_SECONDS);
    assert_eq!(purge_delay(100, Some(100)), PURGE_RETRY_SECONDS);
    assert_eq!(purge_delay(100, Some(160)), 60);
}

#[test]
fn expired_ids_in_order() {
    let list = vec![
        voucher("a", "[ROLLING] a", true),
        voucher("b", "guest", true),
        voucher("c", "[ROLLING] c", false),
        voucher("d", "[ROLLING] d", true),
    ];
    assert_eq!(delete_expired_vouchers(list.clone()), vec!["a", "b", "d"]);
    assert_eq!(delete_expired_rolling_vouchers(list), vec!["a", "d"]);
}

#[test]
fn empty_id_lists_delete_nothing() {
    assert!(delete_targets(vec![]).is_empty());
    assert!(delete_targets(vec![String::new()]).is_empty());
    assert_eq!(delete_targets(vec!["x".to_string(), String::new()]).len(), 2);
    assert_eq!(delete_targets(vec!["x".to_string()]), vec!["x"]);
}

#[test]
fn deletions_are_tallied() {
    assert_eq!(delete_vouchers_by_ids(&vec![true, false, true]).vouchers_deleted, 2);
    assert_eq!(delete_vouchers_by_ids(&vec![]).vouchers_deleted, 0);
    assert!(reply_confirms("ok"));
    assert!(!reply_confirms("error"));
    assert!(!reply_confirms("OK"));
}

#[test]
fn delete_ids_are_split_on_commas() {
    assert_eq!(parse_delete_ids("a,b,c"), vec!["a", "b", "c"]);
    assert_eq!(parse_delete_ids(""), vec![""]);
    assert_eq!(parse_delete_ids("a,,b,"), vec!["a", "", "b", ""]);
    assert_eq!(parse_delete_ids("one"), vec!["one"]);
}

#[test]
fn next_midnight_instants() {
    assert_eq!(next_local_midnight(1_710_115_080, "UTC"), Some(1_710_115_200));
    assert_eq!(next_local_midnight(1_730_563_200, "America/Havana"), Some(1_730_610_000));
    assert_eq!(next_local_midnight(0, "Not/AZone"), None);
}

#[test]
fn extreme_instants_do_not_panic() {
    assert_eq!(run_daily_purge_delay(8_210_266_876_799, "Europe/Berlin"), PURGE_RETRY_SECONDS);
    assert_eq!(run_daily_purge_delay(i64::MAX, "UTC"), PURGE_RETRY_SECONDS);
    assert_eq!(run_daily_purge_delay(i64::MIN, "America/New_York"), PURGE_RETRY_SECONDS);
}

#[test]
fn purge_plan_purges_only_at_midnight() {
    let plan = plan_daily_purge(1_710_115_080, "UTC");
    assert_eq!(plan.wait_seconds, 120);
    assert!(plan.purge);
    let plan = plan_daily_purge(0, "Not/AZone");
    assert_eq!(plan.wait_seconds, PURGE_RETRY_SECONDS);
    assert!(!plan.purge);
}
