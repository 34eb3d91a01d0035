//! The claim gate: per-depositor unlock schedule and withdrawal
//! eligibility.
//!
//! A schedule is written when a deposit is made and is never deleted: a full
//! withdrawal only flips its status to `Withdrawn`, so the history stays in
//! the store and a later redeposit starts from a clean baseline.

use vstd::prelude::*;
use crate::contract::{config_unchanged, funds_unchanged, PaidAccount};
use crate::data::{
    extend_live, touched, AddressEntry, Clock, State, BALANCE_BUMP_AMOUNT,
    BALANCE_LIFETIME_THRESHOLD, SECONDS_IN_DAY,
};

verus! {

/// The unlock timestamp scheduled at `now` under a lock of
/// `claim_block_days` whole days.
pub open spec fn unlock_time(now: u64, claim_block_days: u64) -> u64 {
    (now + claim_block_days * SECONDS_IN_DAY) as u64
}

/// Whether the schedule `entry` has matured at time `now`: true from the
/// unlock timestamp on.  The answer is time-based alone — a withdrawn
/// depositor's schedule persists and still matures — so whether an active
/// deposit remains to pay out is a separate question for the caller.
pub open spec fn claim_open_at(entry: AddressEntry, now: u64) -> bool {
    now >= entry.claim_time
}

/// Claim monotonicity: a stored schedule is not claimable at any time
/// before its unlock timestamp, and claimable at every time from it on.
pub proof fn lemma_claim_monotonic(entry: AddressEntry, t_before: u64, t_after: u64)
    requires
        t_before < entry.claim_time,
        t_after >= entry.claim_time,
    ensures
        !claim_open_at(entry, t_before),
        claim_open_at(entry, t_after),
{
}

/// Decides eligibility for one schedule read from the store.
pub fn claim_open(entry: &AddressEntry, now: u64) -> (r: bool)
    ensures
        r == claim_open_at(*entry, now),
{
    now >= entry.claim_time
}

/// Schedules the claim for a new deposit: the unlock time becomes
/// `now + claim_block_days` days, the status becomes `Deposited`, and the
/// schedule's storage lifetime is refreshed.  Any balance record the
/// depositor has is left untouched.
pub fn set_withdrawal_ts(account: &mut PaidAccount, clock: Clock, addr: u64) -> (ts: u64)
    requires
        old(account).is_initialized(),
        clock.timestamp + old(account).claim_block_days * SECONDS_IN_DAY <= u64::MAX,
        clock.sequence + BALANCE_BUMP_AMOUNT <= u32::MAX,
    ensures
        ts == unlock_time(clock.timestamp, old(account).claim_block_days),
        final(account).store.entries@.contains_key(addr),
        ({
            let entry = final(account).store.entries@[addr];
            &&& entry.status == State::Deposited
            &&& entry.claim_time == ts
            &&& entry.balance == old(account).store.balance_of(addr)
            &&& entry.claim_live_until == touched(
                old(account).store.claim_live_of(addr),
                clock.sequence,
                BALANCE_LIFETIME_THRESHOLD,
                BALANCE_BUMP_AMOUNT,
            )
            &&& entry.balance_live_until == old(account).store.balance_live_of(addr)
        }),
        final(account).store.entries@.remove(addr) == old(account).store.entries@.remove(addr),
        config_unchanged(*old(account), *final(account)),
        funds_unchanged(*old(account), *final(account)),
        final(account).instance_live_until == old(account).instance_live_until,
{
    let withdrawal_ts = clock.timestamp + account.claim_block_days * SECONDS_IN_DAY;
    let (balance, claim_live, balance_live) = match account.store.read(addr) {
        Some(e) => (e.balance, e.claim_live_until, e.balance_live_until),
        None => (None, 0u32, 0u32),
    };
    let new_claim_live = extend_live(
        claim_live,
        clock.sequence,
        BALANCE_LIFETIME_THRESHOLD,
        BALANCE_BUMP_AMOUNT,
    );
    account.store.write(
        addr,
        AddressEntry {
            status: State::Deposited,
            claim_time: withdrawal_ts,
            balance,
            claim_live_until: new_claim_live,
            balance_live_until: balance_live,
        },
    );
    proof {
        assert(account.store.entries@.remove(addr)
            =~= old(account).store.entries@.remove(addr));
    }
    withdrawal_ts
}

/// Whether the depositor's schedule has matured: true iff a schedule
/// exists and the unlock time is reached.  A depositor without any
/// schedule is simply not claimable; that is a normal outcome, not an
/// error, and it is distinct from holding no active deposit — a withdrawn
/// depositor's schedule persists and still answers true, so callers check
/// deposit existence separately.  Checking an existing schedule refreshes
/// its storage lifetime.
pub fn check_address_claimable(account: &mut PaidAccount, clock: Clock, addr: u64) -> (r: bool)
    requires
        old(account).well_formed(),
        clock.sequence + BALANCE_BUMP_AMOUNT <= u32::MAX,
    ensures
        final(account).well_formed(),
        r == old(account).schedule_claimable(addr, clock.timestamp),
        final(account).store.entries@.contains_key(addr)
            == old(account).store.entries@.contains_key(addr),
        old(account).store.entries@.contains_key(addr) ==> final(account).store.entries@[addr]
            == (AddressEntry {
            claim_live_until: touched(
                old(account).store.entries@[addr].claim_live_until,
                clock.sequence,
                BALANCE_LIFETIME_THRESHOLD,
                BALANCE_BUMP_AMOUNT,
            ),
            ..old(account).store.entries@[addr]
        }),
        !old(account).store.entries@.contains_key(addr) ==> final(account).store.entries@
            == old(account).store.entries@,
        final(account).store.entries@.remove(addr) == old(account).store.entries@.remove(addr),
        config_unchanged(*old(account), *final(account)),
        funds_unchanged(*old(account), *final(account)),
        final(account).instance_live_until == old(account).instance_live_until,
{
    match account.store.read(addr) {
        Some(e) => {
            let result = claim_open(&e, clock.timestamp);
            let new_claim_live = extend_live(
                e.claim_live_until,
                clock.sequence,
                BALANCE_LIFETIME_THRESHOLD,
                BALANCE_BUMP_AMOUNT,
            );
            account.store.write(addr, AddressEntry { claim_live_until: new_claim_live, ..e });
            proof {
                assert(account.store.entries@.remove(addr)
                    =~= old(account).store.entries@.remove(addr));
                assert forall|a: u64| #[trigger] account.store.entries@.contains_key(a)
                    implies PaidAccount::entry_inv(
                    account.store.entries@[a],
                    account.interest_rate,
                ) by {
                    if a != addr {
                        assert(account.store.entries@.remove(addr).contains_key(a));
                        assert(old(account).store.entries@.remove(addr).contains_key(a));
                        assert(old(account).store.entries@.contains_key(a));
                        assert(account.store.entries@.remove(addr)[a]
                            == account.store.entries@[a]);
                        assert(old(account).store.entries@.remove(addr)[a] == old(
                            account,
                        ).store.entries@[a]);
                    }
                }
            }
            result
        },
        None => false,
    }
}

} // verus!
