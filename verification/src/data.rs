//! Plain data carried by the account: lifecycle and per-depositor states,
//! the balance record, error codes, the ledger clock, and the model of the
//! persistent entries the account keeps in the host's keyed store.

use vstd::prelude::*;
use std::collections::HashMap;

verus! {

/// Ledger closes in one day at the nominal close rate.
pub const DAY_IN_LEDGERS: u32 = 17280;

/// Lifetime, in ledgers, granted to the configuration entry when touched.
pub const INSTANCE_BUMP_AMOUNT: u32 = 7 * DAY_IN_LEDGERS;

/// Remaining lifetime below which a touch renews the configuration entry.
pub const INSTANCE_LIFETIME_THRESHOLD: u32 = INSTANCE_BUMP_AMOUNT - DAY_IN_LEDGERS;

/// Lifetime, in ledgers, granted to a depositor's entries when touched.
pub const BALANCE_BUMP_AMOUNT: u32 = 30 * DAY_IN_LEDGERS;

/// Remaining lifetime below which a touch renews a depositor's entry.
pub const BALANCE_LIFETIME_THRESHOLD: u32 = BALANCE_BUMP_AMOUNT - DAY_IN_LEDGERS;

/// Seconds in one day; claim delays are configured in whole days.
pub const SECONDS_IN_DAY: u64 = 24 * 3600;

/// Lifecycle of the account and status of a depositor.
///
/// The first three variants describe the account as a whole: it starts
/// `Pending`, becomes `Initialized` exactly once, and may move to
/// `FinancingReached` (closed to new deposits, withdrawals still allowed).
/// The last three describe one depositor: never deposited, holding an active
/// deposit, or fully withdrawn.  `Withdrawn` and `NoDeposited` both permit a
/// fresh deposit.
#[derive(Clone, Copy, Debug, PartialEq, Eq, Structural)]
pub enum State {
    Pending,
    Initialized,
    FinancingReached,
    NoDeposited,
    Deposited,
    Withdrawn,
}

/// What one depositor is owed: the locked principal, the interest fixed at
/// deposit time, and their sum.
#[derive(Clone, Copy, Debug, PartialEq, Eq, Structural)]
pub struct Balance {
    pub deposited: i128,
    pub accumulated_interests: i128,
    pub total: i128,
}

/// Why an operation was refused.  Every check runs before any mutation, so a
/// refused operation leaves the account exactly as it was.  The order of the
/// variants is stable: hosts expose them as sequential ordinals.
#[derive(Clone, Copy, Debug, PartialEq, Eq, Structural)]
pub enum Error {
    /// A depositor asked for more than they are owed.  Reserved for a
    /// partial-withdrawal extension; no operation here returns it.
    AddressInsufficientBalance,
    /// The pool cannot cover the requested payout.
    ContractInsufficientBalance,
    /// The account has not been initialized yet.
    ContractNotInitialized,
    /// A deposit or withdrawal amount was zero or negative.
    AmountLessOrEqualThan0,
    /// `init` was called on an account that is already initialized.
    ContractAlreadyInitialized,
    /// `init` was given a zero interest rate.
    RateMustBeGreaterThan0,
    /// `init` was given a zero claim delay.
    DepositTtlMustBeGreaterThan0,
    /// The depositor's lock has not matured yet, or they hold no deposit.
    AddressNotClaimableYet,
    /// The depositor already holds an active deposit.
    AddressAlreadyDeposited,
    /// The account is closed to new deposits.
    ContractFinancingReached,
}

/// The ledger clock: the timestamp in seconds and the ledger sequence
/// number, both read from the host at the start of an operation.
#[derive(Clone, Copy, Debug)]
pub struct Clock {
    pub timestamp: u64,
    pub sequence: u32,
}

/// The persistent entries one depositor owns: a claim schedule (status and
/// unlock time) and, while a deposit is active, a balance record.  Each
/// carries the expiry ledger its storage lifetime currently runs to.
#[derive(Clone, Copy, Debug)]
pub struct AddressEntry {
    /// `Deposited` or `Withdrawn`; an absent entry stands for `NoDeposited`.
    pub status: State,
    /// Timestamp from which the deposit may be withdrawn.  Kept after a
    /// withdrawal: the schedule's history persists, only `status` flips.
    pub claim_time: u64,
    /// The balance record; present exactly while `status` is `Deposited`.
    pub balance: Option<Balance>,
    /// Ledger up to which the claim schedule stays live in the store.
    pub claim_live_until: u32,
    /// Ledger up to which the balance record stays live in the store.
    pub balance_live_until: u32,
}

/// New expiry ledger after a liveness touch: when less than `threshold`
/// ledgers of lifetime remain, the entry is renewed to `bump` ledgers from
/// now; otherwise it keeps its current expiry.
pub open spec fn touched(live_until: u32, sequence: u32, threshold: u32, bump: u32) -> u32 {
    if (live_until as int) < sequence + threshold {
        (sequence + bump) as u32
    } else {
        live_until
    }
}

/// Applies the liveness-touch policy to one expiry ledger, as [`touched`]
/// describes.
pub fn extend_live(live_until: u32, sequence: u32, threshold: u32, bump: u32) -> (r: u32)
    requires
        sequence + bump <= u32::MAX,
        threshold <= bump,
    ensures
        r == touched(live_until, sequence, threshold, bump),
{
    if live_until < sequence + threshold {
        sequence + bump
    } else {
        live_until
    }
}

/// The slice of the host's keyed persistent store this account owns, keyed
/// by depositor identity.  A missing key means the depositor never
/// deposited.
pub struct Store {
    pub entries: HashMap<u64, AddressEntry>,
}

impl Store {
    /// The depositor's status: the stored one, or `NoDeposited` for a
    /// depositor without entries.
    pub open spec fn status_of(self, addr: u64) -> State {
        if self.entries@.contains_key(addr) {
            self.entries@[addr].status
        } else {
            State::NoDeposited
        }
    }

    /// The depositor's balance record, or `None` for a depositor without
    /// entries.
    pub open spec fn balance_of(self, addr: u64) -> Option<Balance> {
        if self.entries@.contains_key(addr) {
            self.entries@[addr].balance
        } else {
            None
        }
    }

    /// The expiry ledger of the depositor's claim schedule; an absent entry
    /// has no lifetime yet.
    pub open spec fn claim_live_of(self, addr: u64) -> u32 {
        if self.entries@.contains_key(addr) {
            self.entries@[addr].claim_live_until
        } else {
            0
        }
    }

    /// The expiry ledger of the depositor's balance record; an absent entry
    /// has no lifetime yet.
    pub open spec fn balance_live_of(self, addr: u64) -> u32 {
        if self.entries@.contains_key(addr) {
            self.entries@[addr].balance_live_until
        } else {
            0
        }
    }

    /// An empty store.
    pub fn new() -> (s: Store)
        ensures
            s.entries@ == Map::<u64, AddressEntry>::empty(),
    {
        Store { entries: HashMap::new() }
    }

    /// The depositor's entries, copied out, or `None` for a depositor
    /// without any.
    pub fn read(&self, addr: u64) -> (e: Option<AddressEntry>)
        ensures
            match e {
                Some(entry) => self.entries@.contains_key(addr) && entry == self.entries@[addr],
                None => !self.entries@.contains_key(addr),
            },
    {
        match self.entries.get(&addr) {
            Some(entry) => Some(*entry),
            None => None,
        }
    }

    /// Writes the depositor's entries, replacing what was there.
    pub fn write(&mut self, addr: u64, entry: AddressEntry)
        ensures
            final(self).entries@ == old(self).entries@.insert(addr, entry),
    {
        self.entries.insert(addr, entry);
    }
}

} // verus!
