//! The components one by one: interest calculator, claim gate, balance
//! ledger, and the liveness-touch policy.

use paid_account::balance::{reset_balance, write_balance};
use paid_account::claim::{check_address_claimable, set_withdrawal_ts};
use paid_account::contract::PaidAccount;
use paid_account::data::{
    extend_live, Clock, Error, State, BALANCE_BUMP_AMOUNT, BALANCE_LIFETIME_THRESHOLD,
    INSTANCE_BUMP_AMOUNT,
};
use paid_account::interest::calculate_interest;

const ADMIN: u64 = 1;
const TOKEN: u64 = 2;
const USER: u64 = 3;

fn initialized_account(rate: u32, days: u64) -> PaidAccount {
    let mut account = PaidAccount::new();
    account
        .init(Clock { timestamp: 0, sequence: 50 }, ADMIN, TOKEN, rate, days)
        .unwrap();
    account
}

#[test]
fn interest_matches_the_flat_formula() {
    // 500000 * (500 / 100) / 100 = 25000
    assert_eq!(calculate_interest(500000, 500, 0), 25000);
    assert_eq!(calculate_interest(100000, 500, 0), 5000);
    assert_eq!(calculate_interest(1000, 500, 0), 50);
}

#[test]
fn interest_ignores_elapsed_days() {
    assert_eq!(calculate_interest(500000, 500, 0), 25000);
    assert_eq!(calculate_interest(500000, 500, 1), 25000);
    assert_eq!(calculate_interest(500000, 500, 3650), 25000);
}

#[test]
fn interest_truncates_toward_zero() {
    // 19 * (500 / 100) / 100 = 95 / 100 = 0: small principal earns nothing.
    assert_eq!(calculate_interest(19, 500, 0), 0);
    // A rate below one whole percent truncates to nothing at all.
    assert_eq!(calculate_interest(1000000, 99, 0), 0);
    // 199 / 100 = 1: only the whole-percent part of the rate counts.
    assert_eq!(calculate_interest(1000000, 199, 0), 10000);
    assert_eq!(calculate_interest(0, 500, 0), 0);
}

#[test]
fn schedule_sets_unlock_time_and_status() {
    let mut account = initialized_account(500, 6);
    let clock = Clock { timestamp: 1000, sequence: 70 };
    let ts = set_withdrawal_ts(&mut account, clock, USER);
    assert_eq!(ts, 1000 + 6 * 86400);
    let entry = account.store.read(USER).unwrap();
    assert_eq!(entry.status, State::Deposited);
    assert_eq!(entry.claim_time, ts);
    assert_eq!(entry.balance, None);
    assert_eq!(entry.claim_live_until, 70 + BALANCE_BUMP_AMOUNT);
}

#[test]
fn claim_gate_answers_and_touches_the_schedule() {
    let mut account = initialized_account(500, 6);
    let unknown = check_address_claimable(
        &mut account,
        Clock { timestamp: 900000, sequence: 80 },
        USER,
    );
    assert!(!unknown);

    set_withdrawal_ts(&mut account, Clock { timestamp: 0, sequence: 80 }, USER);
    assert!(!check_address_claimable(
        &mut account,
        Clock { timestamp: 518399, sequence: 81 },
        USER
    ));
    assert!(check_address_claimable(
        &mut account,
        Clock { timestamp: 518400, sequence: 81 },
        USER
    ));

    // The check is a liveness touch: with plenty of lifetime left the
    // expiry stays, and once the remaining lifetime falls below the
    // threshold the schedule is renewed from the checking ledger on.
    let before = account.store.read(USER).unwrap().claim_live_until;
    assert_eq!(before, 80 + BALANCE_BUMP_AMOUNT);
    check_address_claimable(
        &mut account,
        Clock { timestamp: 518400, sequence: 90 },
        USER,
    );
    assert_eq!(account.store.read(USER).unwrap().claim_live_until, before);
    let late_ledger = before - BALANCE_LIFETIME_THRESHOLD + 1;
    check_address_claimable(
        &mut account,
        Clock { timestamp: 518400, sequence: late_ledger },
        USER,
    );
    assert_eq!(
        account.store.read(USER).unwrap().claim_live_until,
        late_ledger + BALANCE_BUMP_AMOUNT
    );
}

#[test]
fn ledger_writes_and_clears_the_balance_record() {
    let mut account = initialized_account(500, 6);
    let clock = Clock { timestamp: 0, sequence: 60 };
    set_withdrawal_ts(&mut account, clock, USER);
    let b = write_balance(&mut account, clock, USER, 500000);
    assert_eq!(b.deposited, 500000);
    assert_eq!(b.accumulated_interests, 25000);
    assert_eq!(b.total, 525000);
    let entry = account.store.read(USER).unwrap();
    assert_eq!(entry.balance, Some(b));
    assert_eq!(entry.balance_live_until, 60 + BALANCE_BUMP_AMOUNT);

    reset_balance(&mut account, clock, USER);
    let cleared = account.store.read(USER).unwrap();
    assert_eq!(cleared.status, State::Withdrawn);
    assert_eq!(cleared.balance, None);
    // The schedule's history survives the withdrawal.
    assert_eq!(cleared.claim_time, 6 * 86400);
}

#[test]
fn claim_check_stays_true_after_withdrawal_but_nothing_pays_out() {
    let mut account = initialized_account(500, 1);
    let start = Clock { timestamp: 0, sequence: 60 };
    account.admin_deposit(start, 50000).unwrap();
    account.user_deposit(start, USER, 100000).unwrap();
    let mature = Clock { timestamp: 86400, sequence: 61 };
    assert!(check_address_claimable(&mut account, mature, USER));
    assert_eq!(account.user_withdrawal(mature, USER), Ok(105000));
    // The schedule persists through the withdrawal and keeps answering
    // by time alone...
    assert!(check_address_claimable(&mut account, mature, USER));
    // ...but no active deposit remains, so a withdrawal finds nothing.
    assert_eq!(
        account.user_withdrawal(mature, USER),
        Err(Error::AddressNotClaimableYet)
    );
}

#[test]
fn touch_policy_renews_only_scarce_lifetimes() {
    // A fresh entry has no lifetime and is renewed.
    assert_eq!(
        extend_live(0, 100, BALANCE_LIFETIME_THRESHOLD, BALANCE_BUMP_AMOUNT),
        100 + BALANCE_BUMP_AMOUNT
    );
    // Plenty of lifetime left: the expiry stays where it was.
    assert_eq!(
        extend_live(
            100 + BALANCE_BUMP_AMOUNT,
            101,
            BALANCE_LIFETIME_THRESHOLD,
            BALANCE_BUMP_AMOUNT
        ),
        100 + BALANCE_BUMP_AMOUNT
    );
    // Exactly at the threshold the entry keeps its expiry; one ledger
    // later it is renewed.
    let expiry = 1000 + BALANCE_LIFETIME_THRESHOLD;
    assert_eq!(
        extend_live(expiry, 1000, BALANCE_LIFETIME_THRESHOLD, BALANCE_BUMP_AMOUNT),
        expiry
    );
    assert_eq!(
        extend_live(expiry, 1001, BALANCE_LIFETIME_THRESHOLD, BALANCE_BUMP_AMOUNT),
        1001 + BALANCE_BUMP_AMOUNT
    );
}

#[test]
fn operations_keep_the_configuration_alive() {
    let mut account = initialized_account(500, 6);
    assert_eq!(account.instance_live_until, 50 + INSTANCE_BUMP_AMOUNT);
    // A pure read never touches the configuration's lifetime.
    account.get_contract_balance().unwrap();
    assert_eq!(account.instance_live_until, 50 + INSTANCE_BUMP_AMOUNT);
    // A state-changing operation near the expiry renews it.
    let late_ledger = 40 + INSTANCE_BUMP_AMOUNT;
    account
        .admin_deposit(Clock { timestamp: 0, sequence: late_ledger }, 1000)
        .unwrap();
    assert_eq!(account.instance_live_until, late_ledger + INSTANCE_BUMP_AMOUNT);
}
