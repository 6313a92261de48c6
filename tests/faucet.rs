use geode_faucet::account::AccountId;
use geode_faucet::eligibility::{is_eligible, tags_contain};
use geode_faucet::faucet::ContractStorage;
use geode_faucet::types::{Error, Pebble, ViewStats};

fn acct(b: u8) -> AccountId {
    AccountId::from_bytes([b; 32])
}

fn ip(s: &str) -> Vec<u8> {
    s.as_bytes().to_vec()
}

/// A faucet whose admin is `admin`, with the given settings.
fn configured(admin: AccountId, eligible: u128, payout: u128, window: u64, cap: u128) -> ContractStorage {
    let mut s = ContractStorage::new();
    assert_eq!(s.set_root_account(admin, admin), Ok(()));
    assert_eq!(s.set_payouts_and_fund(admin, eligible, payout, window, cap), Ok(()));
    s
}

#[test]
fn new_faucet_is_empty() {
    let s = ContractStorage::new();
    assert_eq!(s.get_stats_and_settings(), ViewStats::default());
    assert_eq!(s.verify_account(acct(0)), 0);
    assert!(s.get_user(acct(1)).is_none());
    assert!(s.get_tags(&ip("1.1.1.1")).is_empty());
}

#[test]
fn pebble_default_is_zeroed() {
    let p = Pebble::default();
    assert_eq!(p.timestamp, 0);
    assert!(p.ip_address.is_empty());
    assert_eq!(p.pebble, acct(0));
    assert_eq!(p.payout, 0);
}

#[test]
fn account_equality_compares_all_bytes() {
    let mut b = [7u8; 32];
    assert_eq!(acct(7), AccountId::from_bytes(b));
    b[31] = 8;
    assert_ne!(acct(7), AccountId::from_bytes(b));
    assert_ne!(acct(1), acct(2));
}

#[test]
fn root_account_scenario() {
    let (a, b, c) = (acct(1), acct(2), acct(3));
    let mut s = ContractStorage::new();
    assert_eq!(s.set_root_account(c, a), Ok(()));
    assert_eq!(s.set_payouts_and_fund(a, 1, 2, 3, 4), Ok(()));
    assert_eq!(s.set_root_account(c, b), Err(Error::PermissionDenied));
    // the admin is still a: b and c are refused, a is not
    assert_eq!(s.set_payouts_and_fund(b, 9, 9, 9, 9), Err(Error::PermissionDenied));
    assert_eq!(s.set_payouts_and_fund(c, 9, 9, 9, 9), Err(Error::PermissionDenied));
    assert_eq!(s.set_root_account(a, b), Ok(()));
    assert_eq!(s.set_payouts_and_fund(a, 9, 9, 9, 9), Err(Error::PermissionDenied));
    assert_eq!(s.set_payouts_and_fund(b, 5, 6, 7, 8), Ok(()));
}

#[test]
fn admin_may_reassign_itself() {
    let a = acct(1);
    let mut s = ContractStorage::new();
    assert_eq!(s.set_root_account(a, a), Ok(()));
    assert_eq!(s.set_root_account(a, a), Ok(()));
    assert_eq!(s.set_payouts_and_fund(a, 1, 1, 1, 1), Ok(()));
}

#[test]
fn non_admin_settings_change_is_refused_and_leaves_settings() {
    let a = acct(1);
    let mut s = configured(a, 10, 20, 30, 40);
    let before = s.get_stats_and_settings();
    assert_eq!(s.set_payouts_and_fund(acct(2), 0, 0, 0, 0), Err(Error::PermissionDenied));
    assert_eq!(s.get_stats_and_settings(), before);
}

#[test]
fn settings_accept_any_values() {
    let a = acct(1);
    let s = configured(a, 0, u128::MAX, u64::MAX, 0);
    let st = s.get_stats_and_settings();
    assert_eq!(st.eligible_payout, 0);
    assert_eq!(st.get_payout, u128::MAX);
    assert_eq!(st.limit_timer, u64::MAX);
    assert_eq!(st.limit_ip_total, 0);
}

#[test]
fn cooldown_scenario() {
    let x = acct(9);
    let mut s = configured(acct(1), 0, 100, 1000, 2);
    let addr = ip("1.1.1.1");
    assert_eq!(s.coin_transfer(x, &addr, 0, 10_000), Some(100));
    let ev = s.get_coin(x, addr.clone(), 0, 10_000, true).unwrap();
    assert_eq!((ev.timestamp, ev.pebble, ev.payout), (0, x, 100));
    assert_eq!(ev.user_ip, addr);
    assert_eq!(s.get_user(x).unwrap().payout, 100);

    assert_eq!(s.coin_transfer(x, &addr, 500, 10_000), None);
    assert_eq!(s.get_coin(x, addr.clone(), 500, 10_000, true).unwrap_err(), Error::PermissionDenied);
    assert_eq!(s.get_user(x).unwrap().payout, 100);

    assert!(s.get_coin(x, addr.clone(), 1000, 10_000, true).is_ok());
    let rec = s.get_user(x).unwrap();
    assert_eq!((rec.payout, rec.timestamp, rec.pebble), (200, 1000, x));
    let st = s.get_stats_and_settings();
    assert_eq!(st.total_payouts, 200);
    assert_eq!(st.total_pebble_accounts, 1);
}

#[test]
fn address_cap_scenario() {
    let (x, y) = (acct(10), acct(11));
    let mut s = configured(acct(1), 0, 5, 100, 1);
    let addr = ip("9.9.9.9");
    assert!(s.get_coin(x, addr.clone(), 0, 0, true).is_ok());
    assert_eq!(s.get_tags(&addr), vec![x]);
    assert_eq!(s.get_coin(y, addr.clone(), 0, 0, true).unwrap_err(), Error::PermissionDenied);
    assert_eq!(s.verify_account(y), 0);
    assert!(s.get_coin(x, addr.clone(), 200, 0, true).is_ok());
    assert_eq!(s.get_tags(&addr), vec![x]);
    assert_eq!(s.get_stats_and_settings().total_pebble_accounts, 1);
}

#[test]
fn low_balance_claim_skips_transfer_but_records() {
    let x = acct(4);
    let mut s = configured(acct(1), 0, 100, 10, 3);
    let addr = ip("2.2.2.2");
    // balance equal to the payout: no transfer owed
    assert_eq!(s.coin_transfer(x, &addr, 7, 100), None);
    // the transfer outcome is ignored when none was owed
    let ev = s.get_coin(x, addr.clone(), 7, 100, false).unwrap();
    assert_eq!(ev.payout, 100);
    assert_eq!(s.verify_account(x), 1);
    let st = s.get_stats_and_settings();
    assert_eq!((st.total_payouts, st.total_pebble_accounts), (100, 1));
    assert_eq!(s.get_user(x).unwrap().payout, 100);
}

#[test]
fn failed_transfer_fails_claim_without_recording() {
    let x = acct(4);
    let mut s = configured(acct(1), 0, 100, 10, 3);
    let addr = ip("2.2.2.2");
    assert_eq!(s.coin_transfer(x, &addr, 7, 101), Some(100));
    assert_eq!(s.get_coin(x, addr.clone(), 7, 101, false).unwrap_err(), Error::PayoutFailed);
    assert_eq!(s.verify_account(x), 0);
    assert!(s.get_tags(&addr).is_empty());
    assert_eq!(s.get_stats_and_settings(), configured(acct(1), 0, 100, 10, 3).get_stats_and_settings());
}

#[test]
fn first_claim_succeeds_at_any_time() {
    for now in [0u64, 1, 999, u64::MAX] {
        let x = acct(5);
        let mut s = configured(acct(1), 0, 50, u64::MAX, 1);
        assert_eq!(s.verify_account(x), 0);
        assert!(s.get_coin(x, ip("3.3.3.3"), now, 0, true).is_ok());
        assert_eq!(s.verify_account(x), 1);
    }
}

#[test]
fn cooldown_denies_whatever_the_address() {
    let x = acct(5);
    let mut s = configured(acct(1), 0, 50, 100, 10);
    assert!(s.get_coin(x, ip("a"), 1000, 0, true).is_ok());
    assert_eq!(s.get_coin(x, ip("a"), 1099, 0, true).unwrap_err(), Error::PermissionDenied);
    assert_eq!(s.get_coin(x, ip("b"), 1050, 0, true).unwrap_err(), Error::PermissionDenied);
    assert!(s.get_coin(x, ip("b"), 1100, 0, true).is_ok());
    assert_eq!(s.get_tags(&ip("a")), vec![x]);
    assert_eq!(s.get_tags(&ip("b")), vec![x]);
    assert_eq!(s.get_user(x).unwrap().ip_address, ip("b"));
}

#[test]
fn zero_payout_waives_cooldown() {
    let x = acct(5);
    let mut s = configured(acct(1), 0, 0, 100, 10);
    assert!(s.get_coin(x, ip("a"), 10, 0, true).is_ok());
    assert!(s.get_coin(x, ip("a"), 11, 0, true).is_ok());
    assert_eq!(s.get_user(x).unwrap().payout, 0);
    assert_eq!(s.get_stats_and_settings().total_pebble_accounts, 1);
}

#[test]
fn elapsed_time_wraps_for_a_future_timestamp() {
    let x = acct(5);
    let mut s = configured(acct(1), 0, 1, 100, 10);
    assert!(s.get_coin(x, ip("a"), 1000, 0, true).is_ok());
    // 10 - 1000 wraps to a huge elapsed time, past the window
    assert!(s.get_coin(x, ip("a"), 10, 0, true).is_ok());
    assert_eq!(s.get_user(x).unwrap().timestamp, 10);
}

#[test]
fn cumulative_payout_saturates() {
    let x = acct(6);
    let mut s = configured(acct(1), 0, u128::MAX - 1, 0, 10);
    assert!(s.get_coin(x, ip("a"), 0, 0, true).is_ok());
    assert!(s.get_coin(x, ip("a"), 0, 0, true).is_ok());
    assert_eq!(s.get_user(x).unwrap().payout, u128::MAX);
    assert_eq!(s.get_stats_and_settings().total_payouts, u128::MAX);
    assert!(s.get_coin(x, ip("a"), 0, 0, true).is_ok());
    assert_eq!(s.get_user(x).unwrap().payout, u128::MAX);
}

#[test]
fn onboarding_counts_each_account_once() {
    let mut s = configured(acct(1), 0, 3, 0, 10);
    for round in 0..3u64 {
        for b in 20..24u8 {
            assert!(s.get_coin(acct(b), ip("h"), round, 0, true).is_ok());
        }
    }
    let st = s.get_stats_and_settings();
    assert_eq!(st.total_pebble_accounts, 4);
    assert_eq!(st.total_payouts, 36);
    assert_eq!(s.get_tags(&ip("h")), vec![acct(20), acct(21), acct(22), acct(23)]);
}

#[test]
fn check_eligibility_pays_without_recording() {
    let x = acct(7);
    let mut s = configured(acct(1), 30, 100, 1000, 1);
    let addr = ip("4.4.4.4");
    assert_eq!(s.eligibility_transfer(x, &addr, 0, 31), Some(30));
    assert_eq!(s.eligibility_transfer(x, &addr, 0, 30), None);
    let (status, ev) = s.check_eligibility(x, addr.clone(), 0, 31, true);
    assert_eq!(status, 1);
    let ev = ev.unwrap();
    assert_eq!((ev.timestamp, ev.pebble, ev.payout), (0, x, 30));
    assert_eq!(ev.user_ip, addr);
    assert_eq!(s.verify_account(x), 0);
    assert!(s.get_tags(&addr).is_empty());

    // a failed transfer gives status 2, still with the nominal amount
    let (status, ev) = s.check_eligibility(x, addr.clone(), 0, 31, false);
    assert_eq!(status, 2);
    assert_eq!(ev.unwrap().payout, 30);
    // a skipped transfer gives status 1 whatever the outcome flag says
    let (status, ev) = s.check_eligibility(x, addr.clone(), 0, 5, false);
    assert_eq!(status, 1);
    assert!(ev.is_some());

    // once the address is full, another account is denied
    assert!(s.get_coin(x, addr.clone(), 0, 0, true).is_ok());
    let (status, ev) = s.check_eligibility(acct(8), addr.clone(), 5000, 31, true);
    assert_eq!(status, 0);
    assert!(ev.is_none());
    // and x itself is in its cooldown
    assert_eq!(s.check_eligibility(x, addr.clone(), 10, 31, true).0, 0);
    assert_eq!(s.check_eligibility(x, addr.clone(), 1000, 31, true).0, 1);
}

#[test]
fn eligibility_rule_on_values() {
    let x = acct(1);
    let tags = vec![acct(2), acct(3)];
    assert!(tags_contain(&tags, acct(3)));
    assert!(!tags_contain(&tags, x));
    // address full, x not in it
    assert!(!is_eligible(&tags, 2, x, 0, 0, 0, 0));
    // address with room
    assert!(is_eligible(&tags, 3, x, 0, 0, 0, 0));
    // full, but account already known
    assert!(is_eligible(&tags, 2, acct(2), 0, 0, 0, 0));
    // cooldown not elapsed, paid before
    assert!(!is_eligible(&tags, 3, x, 50, 10, 1, 41));
    // exactly the window elapsed
    assert!(is_eligible(&tags, 3, x, 51, 10, 1, 41));
    // never paid: cooldown waived
    assert!(is_eligible(&tags, 3, x, 11, 10, 0, 41));
}
