//! The balance ledger: per-depositor principal and interest records.
//!
//! A record is written once, when the deposit is made, with the interest
//! fixed at that moment; there is no top-up path.  A full withdrawal removes
//! the record and is the only way to make room for a fresh deposit.

use vstd::prelude::*;
use crate::contract::{config_unchanged, funds_unchanged, PaidAccount};
use crate::data::{
    extend_live, touched, AddressEntry, Clock, State, BALANCE_BUMP_AMOUNT,
    BALANCE_LIFETIME_THRESHOLD,
};
use crate::data::Balance;
use crate::interest::{calculate_interest, flat_interest};

verus! {

/// The balance record a deposit of `amount` creates under whole-percent
/// rate `rate`: the principal, the interest fixed for it, and their sum.
pub open spec fn balance_for(amount: i128, rate: u32) -> Balance {
    Balance {
        deposited: amount,
        accumulated_interests: flat_interest(amount as int, rate as int) as i128,
        total: (amount + flat_interest(amount as int, rate as int)) as i128,
    }
}

/// Writes the balance record for a fresh deposit: principal `amount`, the
/// interest the account's rate fixes for it, and their sum.  The record's
/// storage lifetime is refreshed; the depositor's claim schedule, written by
/// the claim gate before the ledger runs, is left untouched.
pub fn write_balance(account: &mut PaidAccount, clock: Clock, addr: u64, amount: i128) -> (b:
    Balance)
    requires
        old(account).is_initialized(),
        amount > 0,
        amount * ((old(account).interest_rate as int) / 100) <= i128::MAX,
        amount + flat_interest(amount as int, old(account).interest_rate as int) <= i128::MAX,
        clock.sequence + BALANCE_BUMP_AMOUNT <= u32::MAX,
        old(account).store.entries@.contains_key(addr),
    ensures
        b == balance_for(amount, old(account).interest_rate),
        final(account).store.entries@.contains_key(addr),
        ({
            let entry = final(account).store.entries@[addr];
            let was = old(account).store.entries@[addr];
            &&& entry.status == was.status
            &&& entry.claim_time == was.claim_time
            &&& entry.claim_live_until == was.claim_live_until
            &&& entry.balance == Some(b)
            &&& entry.balance_live_until == touched(
                was.balance_live_until,
                clock.sequence,
                BALANCE_LIFETIME_THRESHOLD,
                BALANCE_BUMP_AMOUNT,
            )
        }),
        final(account).store.entries@.remove(addr) == old(account).store.entries@.remove(addr),
        config_unchanged(*old(account), *final(account)),
        funds_unchanged(*old(account), *final(account)),
        final(account).instance_live_until == old(account).instance_live_until,
{
    let interest_rate = account.interest_rate;
    let current_interest = calculate_interest(amount, interest_rate, 0);
    let b = Balance {
        deposited: amount,
        accumulated_interests: current_interest,
        total: amount + current_interest,
    };
    let entry = account.store.read(addr).unwrap();
    let new_balance_live = extend_live(
        entry.balance_live_until,
        clock.sequence,
        BALANCE_LIFETIME_THRESHOLD,
        BALANCE_BUMP_AMOUNT,
    );
    account.store.write(
        addr,
        AddressEntry { balance: Some(b), balance_live_until: new_balance_live, ..entry },
    );
    proof {
        assert(account.store.entries@.remove(addr)
            =~= old(account).store.entries@.remove(addr));
    }
    b
}

/// Clears the depositor's record after a full withdrawal: the balance
/// record is removed and the claim schedule is marked `Withdrawn` rather
/// than deleted, so its history persists for a later redeposit.  The
/// schedule's storage lifetime is refreshed.
pub fn reset_balance(account: &mut PaidAccount, clock: Clock, addr: u64)
    requires
        clock.sequence + BALANCE_BUMP_AMOUNT <= u32::MAX,
        old(account).store.entries@.contains_key(addr),
    ensures
        final(account).store.entries@.contains_key(addr),
        ({
            let entry = final(account).store.entries@[addr];
            let was = old(account).store.entries@[addr];
            &&& entry.status == State::Withdrawn
            &&& entry.balance is None
            &&& entry.claim_time == was.claim_time
            &&& entry.claim_live_until == touched(
                was.claim_live_until,
                clock.sequence,
                BALANCE_LIFETIME_THRESHOLD,
                BALANCE_BUMP_AMOUNT,
            )
            &&& entry.balance_live_until == was.balance_live_until
        }),
        final(account).store.entries@.remove(addr) == old(account).store.entries@.remove(addr),
        config_unchanged(*old(account), *final(account)),
        funds_unchanged(*old(account), *final(account)),
        final(account).instance_live_until == old(account).instance_live_until,
{
    let entry = account.store.read(addr).unwrap();
    let new_claim_live = extend_live(
        entry.claim_live_until,
        clock.sequence,
        BALANCE_LIFETIME_THRESHOLD,
        BALANCE_BUMP_AMOUNT,
    );
    account.store.write(
        addr,
        AddressEntry {
            status: State::Withdrawn,
            balance: None,
            claim_live_until: new_claim_live,
            ..entry
        },
    );
    proof {
        assert(account.store.entries@.remove(addr)
            =~= old(account).store.entries@.remove(addr));
    }
}

} // verus!
