//! The orchestrator: the account's public operation set.
//!
//! [`PaidAccount`] models the account's whole persistent state as plain
//! values: the configuration singleton, the pooled token balance, and the
//! per-depositor entries.  Each public operation runs its precondition
//! checks in a fixed order, and either fails with the first failing check's
//! error — leaving the state exactly as it was — or applies its whole
//! effect, token movement included, as one atomic step.
//!
//! The host around the account supplies authorization, token transfers and
//! persistence.  Every operation documents which identity must have
//! authenticated; the host enforces that before the transition is applied,
//! and performs the at-most-one token transfer whose effect on the pooled
//! balance the transition records.

use vstd::prelude::*;
use crate::balance::{balance_for, reset_balance, write_balance};
use crate::claim::{claim_open, set_withdrawal_ts, unlock_time};
use crate::data::{
    touched, AddressEntry, Balance, Clock, Error, State, Store, BALANCE_BUMP_AMOUNT,
    BALANCE_LIFETIME_THRESHOLD, INSTANCE_BUMP_AMOUNT, INSTANCE_LIFETIME_THRESHOLD,
    SECONDS_IN_DAY,
};
use crate::interest::flat_interest;

verus! {

/// The account: configuration, pooled token balance, per-depositor store,
/// and the running totals that state the conservation law.
///
/// `admin`, `token`, `interest_rate` and `claim_block_days` are meaningful
/// once `state` leaves `Pending`; `init` is the only operation that writes
/// them.  `pool` is the token balance held at the account's own address: it
/// changes exactly by the transfers the operations perform.  The three
/// ghost totals record the history of those transfers, so that
/// well-formedness can state conservation over any sequence of operations.
pub struct PaidAccount {
    /// Lifecycle: `Pending`, `Initialized` or `FinancingReached`.
    pub state: State,
    /// Identity authorized for pool funding, pool withdrawal and closing.
    pub admin: u64,
    /// Reference to the fungible token used for deposits and payouts.
    pub token: u64,
    /// Whole-percent interest rate (`500` stands for 5%).
    pub interest_rate: u32,
    /// Minimum lock duration in days.
    pub claim_block_days: u64,
    /// Ledger up to which the configuration stays live in the store.
    pub instance_live_until: u32,
    /// The per-depositor persistent entries.
    pub store: Store,
    /// Tokens held by the account itself, funding payouts and interest.
    pub pool: i128,
    /// Running total of admin deposits into the pool.
    pub admin_deposits: Ghost<int>,
    /// Running total of user deposits into the pool.
    pub user_deposits: Ghost<int>,
    /// Running total of payouts out of the pool, admin withdrawals included.
    pub payouts: Ghost<int>,
}

/// The configuration singleton is untouched between `pre` and `post`.
pub open spec fn config_unchanged(pre: PaidAccount, post: PaidAccount) -> bool {
    &&& post.state == pre.state
    &&& post.admin == pre.admin
    &&& post.token == pre.token
    &&& post.interest_rate == pre.interest_rate
    &&& post.claim_block_days == pre.claim_block_days
}

/// The pool and the deposit/payout history are untouched between `pre` and
/// `post`.
pub open spec fn funds_unchanged(pre: PaidAccount, post: PaidAccount) -> bool {
    &&& post.pool == pre.pool
    &&& post.admin_deposits@ == pre.admin_deposits@
    &&& post.user_deposits@ == pre.user_deposits@
    &&& post.payouts@ == pre.payouts@
}

impl PaidAccount {
    /// The lifecycle field holds one of its three lawful values.
    pub open spec fn lifecycle_ok(self) -> bool {
        ||| self.state == State::Pending
        ||| self.state == State::Initialized
        ||| self.state == State::FinancingReached
    }

    /// Initialized, whether or not financing has since been closed.
    pub open spec fn is_initialized(self) -> bool {
        self.state == State::Initialized || self.state == State::FinancingReached
    }

    /// The depositor's status, `NoDeposited` if they never deposited.
    pub open spec fn status_of(self, addr: u64) -> State {
        self.store.status_of(addr)
    }

    /// The claim gate's answer for the depositor at time `now`: a schedule
    /// exists and its unlock time is reached.  Time-based alone — a
    /// withdrawn depositor's persisting schedule still matures; whether an
    /// active deposit remains is checked separately.
    pub open spec fn schedule_claimable(self, addr: u64, now: u64) -> bool {
        self.store.entries@.contains_key(addr) && now >= self.store.entries@[addr].claim_time
    }

    /// Whether a withdrawal at time `now` pays out: the schedule has
    /// matured and an active deposit — a live balance record — exists.
    pub open spec fn can_withdraw(self, addr: u64, now: u64) -> bool {
        self.schedule_claimable(addr, now) && self.status_of(addr) == State::Deposited
    }

    /// What an active depositor is owed: principal plus fixed interest.
    pub open spec fn owed(self, addr: u64) -> int {
        self.store.entries@[addr].balance.unwrap().total as int
    }

    /// Well-formedness of one stored depositor entry under rate `rate`: a
    /// stored status is `Deposited` or `Withdrawn`, the balance record
    /// exists exactly while the deposit is active, and its fields are the
    /// principal, the interest the rate fixes for it, and their sum.
    pub open spec fn entry_inv(entry: AddressEntry, rate: u32) -> bool {
        &&& entry.status == State::Deposited || entry.status == State::Withdrawn
        &&& (entry.status == State::Deposited <==> entry.balance is Some)
        &&& (entry.balance matches Some(b) ==> {
            &&& b.deposited > 0
            &&& b.accumulated_interests == flat_interest(b.deposited as int, rate as int)
            &&& b.total == b.deposited + b.accumulated_interests
        })
    }

    /// Every stored depositor entry is well-formed.
    pub open spec fn entries_inv(self) -> bool {
        forall|addr: u64| #[trigger]
            self.store.entries@.contains_key(addr) ==> Self::entry_inv(
                self.store.entries@[addr],
                self.interest_rate,
            )
    }

    /// Conservation: the pool equals total admin deposits plus total user
    /// deposits minus total payouts.
    pub open spec fn conservation(self) -> bool {
        self.pool == self.admin_deposits@ + self.user_deposits@ - self.payouts@
    }

    /// Well-formedness of the account apart from the depositor entries.
    pub open spec fn base_inv(self) -> bool {
        &&& self.lifecycle_ok()
        &&& self.is_initialized() ==> self.interest_rate >= 1 && self.claim_block_days >= 1
        &&& self.state == State::Pending ==> {
            &&& self.store.entries@ =~= Map::<u64, AddressEntry>::empty()
            &&& self.pool == 0
            &&& self.admin_deposits@ == 0
            &&& self.user_deposits@ == 0
            &&& self.payouts@ == 0
        }
        &&& self.pool >= 0
        &&& self.admin_deposits@ >= 0
        &&& self.user_deposits@ >= 0
        &&& self.payouts@ >= 0
        &&& self.conservation()
    }

    /// The invariant every operation preserves: a lawful lifecycle, a
    /// non-negative conserved pool, and well-formed depositor entries.
    pub open spec fn well_formed(self) -> bool {
        self.base_inv() && self.entries_inv()
    }

    /// A fresh account: pending, empty, holding no tokens.
    pub fn new() -> (account: PaidAccount)
        ensures
            account.well_formed(),
            account.state == State::Pending,
            account.pool == 0,
            account.store.entries@ == Map::<u64, AddressEntry>::empty(),
            account.admin_deposits@ == 0,
            account.user_deposits@ == 0,
            account.payouts@ == 0,
    {
        PaidAccount {
            state: State::Pending,
            admin: 0,
            token: 0,
            interest_rate: 0,
            claim_block_days: 0,
            instance_live_until: 0,
            store: Store::new(),
            pool: 0,
            admin_deposits: Ghost(0),
            user_deposits: Ghost(0),
            payouts: Ghost(0),
        }
    }

    /// The lifecycle state, `Pending` where none was ever written.
    fn get_state(&self) -> (s: State)
        ensures
            s == self.state,
    {
        self.state
    }

    /// Whether the account has been initialized; financing-closed accounts
    /// count as initialized.
    fn check_contract_initialized(&self) -> (r: bool)
        ensures
            r == self.is_initialized(),
    {
        let state = self.get_state();
        state == State::Initialized || state == State::FinancingReached
    }

    /// Liveness touch on the configuration singleton, applied by every
    /// state-changing operation (never by pure reads).
    fn touch_instance(&mut self, clock: Clock)
        requires
            clock.sequence + INSTANCE_BUMP_AMOUNT <= u32::MAX,
        ensures
            *final(self) == (PaidAccount {
                instance_live_until: touched(
                    old(self).instance_live_until,
                    clock.sequence,
                    INSTANCE_LIFETIME_THRESHOLD,
                    INSTANCE_BUMP_AMOUNT,
                ),
                ..*old(self)
            }),
    {
        if self.instance_live_until < clock.sequence + INSTANCE_LIFETIME_THRESHOLD {
            self.instance_live_until = clock.sequence + INSTANCE_BUMP_AMOUNT;
        }
    }

    /// Initializes the account: records the admin, the token, a positive
    /// whole-percent interest rate and a positive claim delay, and moves
    /// the lifecycle to `Initialized`.  Rejects a second initialization
    /// whatever its arguments, leaving the first configuration unchanged.
    ///
    /// The caller must have authenticated as `admin_addr`; the host
    /// enforces that before this transition is applied.
    pub fn init(
        &mut self,
        clock: Clock,
        admin_addr: u64,
        token_addr: u64,
        i_rate: u32,
        claim_block_days: u64,
    ) -> (r: Result<bool, Error>)
        requires
            old(self).well_formed(),
            clock.sequence + INSTANCE_BUMP_AMOUNT <= u32::MAX,
        ensures
            final(self).well_formed(),
            old(self).is_initialized() ==> r == Err::<bool, Error>(
                Error::ContractAlreadyInitialized,
            ) && *final(self) == *old(self),
            !old(self).is_initialized() && i_rate == 0 ==> r == Err::<bool, Error>(
                Error::RateMustBeGreaterThan0,
            ) && *final(self) == *old(self),
            !old(self).is_initialized() && i_rate > 0 && claim_block_days == 0 ==> r == Err::<
                bool,
                Error,
            >(Error::DepositTtlMustBeGreaterThan0) && *final(self) == *old(self),
            !old(self).is_initialized() && i_rate > 0 && claim_block_days > 0 ==> {
                &&& r == Ok::<bool, Error>(true)
                &&& *final(self) == (PaidAccount {
                    state: State::Initialized,
                    admin: admin_addr,
                    token: token_addr,
                    interest_rate: i_rate,
                    claim_block_days: claim_block_days,
                    instance_live_until: (clock.sequence + INSTANCE_BUMP_AMOUNT) as u32,
                    ..*old(self)
                })
            },
    {
        if self.check_contract_initialized() {
            return Err(Error::ContractAlreadyInitialized);
        }
        if i_rate == 0 {
            return Err(Error::RateMustBeGreaterThan0);
        }
        if claim_block_days == 0 {
            return Err(Error::DepositTtlMustBeGreaterThan0);
        }
        self.state = State::Initialized;
        self.admin = admin_addr;
        self.token = token_addr;
        self.interest_rate = i_rate;
        self.claim_block_days = claim_block_days;
        self.instance_live_until = clock.sequence + INSTANCE_BUMP_AMOUNT;
        Ok(true)
    }

    /// Funds the interest pool: moves `amount` tokens from the admin to the
    /// account and returns the new pool balance.
    ///
    /// The caller must have authenticated as the stored admin; the host
    /// enforces that and performs the transfer.
    pub fn admin_deposit(&mut self, clock: Clock, amount: i128) -> (r: Result<i128, Error>)
        requires
            old(self).well_formed(),
            clock.sequence + INSTANCE_BUMP_AMOUNT <= u32::MAX,
            old(self).is_initialized() && amount > 0 ==> old(self).pool + amount <= i128::MAX,
        ensures
            final(self).well_formed(),
            !old(self).is_initialized() ==> r == Err::<i128, Error>(Error::ContractNotInitialized)
                && *final(self) == *old(self),
            old(self).is_initialized() && amount <= 0 ==> r == Err::<i128, Error>(
                Error::AmountLessOrEqualThan0,
            ) && *final(self) == *old(self),
            old(self).is_initialized() && amount > 0 ==> {
                &&& r == Ok::<i128, Error>((old(self).pool + amount) as i128)
                &&& final(self).pool == old(self).pool + amount
                &&& final(self).admin_deposits@ == old(self).admin_deposits@ + amount
                &&& final(self).user_deposits@ == old(self).user_deposits@
                &&& final(self).payouts@ == old(self).payouts@
                &&& final(self).store.entries@ == old(self).store.entries@
                &&& config_unchanged(*old(self), *final(self))
                &&& final(self).instance_live_until == touched(
                    old(self).instance_live_until,
                    clock.sequence,
                    INSTANCE_LIFETIME_THRESHOLD,
                    INSTANCE_BUMP_AMOUNT,
                )
            },
    {
        if !self.check_contract_initialized() {
            return Err(Error::ContractNotInitialized);
        }
        if amount <= 0 {
            return Err(Error::AmountLessOrEqualThan0);
        }
        self.touch_instance(clock);
        self.pool = self.pool + amount;
        self.admin_deposits = Ghost(self.admin_deposits@ + amount);
        Ok(self.pool)
    }

    /// Accepts a deposit from `addr`: schedules the claim, moves `amount`
    /// tokens from the depositor to the pool, and records principal,
    /// fixed interest and total.  One active deposit per depositor: a
    /// depositor whose status is `Deposited` is rejected until they fully
    /// withdraw.
    ///
    /// The caller must have authenticated as `addr`; the host enforces
    /// that and performs the transfer.
    pub fn user_deposit(&mut self, clock: Clock, addr: u64, amount: i128) -> (r: Result<
        Balance,
        Error,
    >)
        requires
            old(self).well_formed(),
            clock.sequence + BALANCE_BUMP_AMOUNT <= u32::MAX,
            old(self).state == State::Initialized && amount > 0 && old(self).status_of(addr)
                != State::Deposited ==> {
                &&& clock.timestamp + old(self).claim_block_days * SECONDS_IN_DAY <= u64::MAX
                &&& amount * ((old(self).interest_rate as int) / 100) <= i128::MAX
                &&& amount + flat_interest(amount as int, old(self).interest_rate as int)
                    <= i128::MAX
                &&& old(self).pool + amount <= i128::MAX
            },
        ensures
            final(self).well_formed(),
            !old(self).is_initialized() ==> r == Err::<Balance, Error>(
                Error::ContractNotInitialized,
            ) && *final(self) == *old(self),
            old(self).is_initialized() && amount <= 0 ==> r == Err::<Balance, Error>(
                Error::AmountLessOrEqualThan0,
            ) && *final(self) == *old(self),
            old(self).state == State::FinancingReached && amount > 0 ==> r == Err::<
                Balance,
                Error,
            >(Error::ContractFinancingReached) && *final(self) == *old(self),
            old(self).state == State::Initialized && amount > 0 && old(self).status_of(addr)
                == State::Deposited ==> r == Err::<Balance, Error>(Error::AddressAlreadyDeposited)
                && *final(self) == *old(self),
            old(self).state == State::Initialized && amount > 0 && old(self).status_of(addr)
                != State::Deposited ==> {
                &&& r == Ok::<Balance, Error>(balance_for(amount, old(self).interest_rate))
                &&& final(self).store.entries@.contains_key(addr)
                &&& ({
                    let entry = final(self).store.entries@[addr];
                    &&& entry.status == State::Deposited
                    &&& entry.claim_time == unlock_time(
                        clock.timestamp,
                        old(self).claim_block_days,
                    )
                    &&& entry.balance == Some(balance_for(amount, old(self).interest_rate))
                    &&& entry.claim_live_until == touched(
                        old(self).store.claim_live_of(addr),
                        clock.sequence,
                        BALANCE_LIFETIME_THRESHOLD,
                        BALANCE_BUMP_AMOUNT,
                    )
                    &&& entry.balance_live_until == touched(
                        old(self).store.balance_live_of(addr),
                        clock.sequence,
                        BALANCE_LIFETIME_THRESHOLD,
                        BALANCE_BUMP_AMOUNT,
                    )
                })
                &&& final(self).store.entries@.remove(addr) == old(self).store.entries@.remove(
                    addr,
                )
                &&& final(self).pool == old(self).pool + amount
                &&& final(self).user_deposits@ == old(self).user_deposits@ + amount
                &&& final(self).admin_deposits@ == old(self).admin_deposits@
                &&& final(self).payouts@ == old(self).payouts@
                &&& config_unchanged(*old(self), *final(self))
                &&& final(self).instance_live_until == touched(
                    old(self).instance_live_until,
                    clock.sequence,
                    INSTANCE_LIFETIME_THRESHOLD,
                    INSTANCE_BUMP_AMOUNT,
                )
            },
    {
        if !self.check_contract_initialized() {
            return Err(Error::ContractNotInitialized);
        }
        if amount <= 0 {
            return Err(Error::AmountLessOrEqualThan0);
        }
        let state = self.get_state();
        if state == State::FinancingReached {
            return Err(Error::ContractFinancingReached);
        }
        let addr_status = match self.store.read(addr) {
            Some(entry) => entry.status,
            None => State::NoDeposited,
        };
        if addr_status == State::Deposited {
            return Err(Error::AddressAlreadyDeposited);
        }
        set_withdrawal_ts(self, clock, addr);
        self.touch_instance(clock);
        self.pool = self.pool + amount;
        self.user_deposits = Ghost(self.user_deposits@ + amount);
        let b = write_balance(self, clock, addr, amount);
        proof {
            assert forall|a: u64| #[trigger] self.store.entries@.contains_key(a)
                implies Self::entry_inv(self.store.entries@[a], self.interest_rate) by {
                if a != addr {
                    assert(self.store.entries@.remove(addr).contains_key(a));
                    assert(old(self).store.entries@.remove(addr).contains_key(a));
                    assert(old(self).store.entries@.contains_key(a));
                    assert(self.store.entries@.remove(addr)[a] == self.store.entries@[a]);
                    assert(old(self).store.entries@.remove(addr)[a] == old(
                        self,
                    ).store.entries@[a]);
                }
            }
        }
        Ok(b)
    }

    /// The pool balance, readable once the account is initialized.  A pure
    /// read: no storage lifetime is touched.
    ///
    /// The caller must have authenticated as the stored admin; the host
    /// enforces that.
    pub fn get_contract_balance(&self) -> (r: Result<i128, Error>)
        ensures
            !self.is_initialized() ==> r == Err::<i128, Error>(Error::ContractNotInitialized),
            self.is_initialized() ==> r == Ok::<i128, Error>(self.pool),
    {
        if !self.check_contract_initialized() {
            return Err(Error::ContractNotInitialized);
        }
        Ok(self.pool)
    }

    /// Pays out a matured deposit: moves principal plus interest from the
    /// pool to the depositor, clears their balance record and marks their
    /// schedule `Withdrawn`.  Refused while the schedule has not matured,
    /// refused when no active deposit exists — the schedule check is
    /// time-based alone, so deposit existence is checked separately here —
    /// and refused, with every record intact, when the pool cannot cover
    /// the whole payout; there is no partial payout.
    ///
    /// The caller must have authenticated as `addr`; the host enforces
    /// that and performs the transfer.
    pub fn user_withdrawal(&mut self, clock: Clock, addr: u64) -> (r: Result<i128, Error>)
        requires
            old(self).well_formed(),
            clock.sequence + BALANCE_BUMP_AMOUNT <= u32::MAX,
        ensures
            final(self).well_formed(),
            !old(self).is_initialized() ==> r == Err::<i128, Error>(Error::ContractNotInitialized)
                && *final(self) == *old(self),
            old(self).is_initialized() && !old(self).can_withdraw(addr, clock.timestamp) ==> r
                == Err::<i128, Error>(Error::AddressNotClaimableYet) && *final(self) == *old(self),
            old(self).is_initialized() && old(self).can_withdraw(addr, clock.timestamp) && old(
                self,
            ).pool < old(self).owed(addr) ==> r == Err::<i128, Error>(
                Error::ContractInsufficientBalance,
            ) && *final(self) == *old(self),
            old(self).is_initialized() && old(self).can_withdraw(addr, clock.timestamp) && old(
                self,
            ).pool >= old(self).owed(addr) ==> {
                &&& r == Ok::<i128, Error>(old(self).owed(addr) as i128)
                &&& final(self).pool == old(self).pool - old(self).owed(addr)
                &&& final(self).payouts@ == old(self).payouts@ + old(self).owed(addr)
                &&& final(self).admin_deposits@ == old(self).admin_deposits@
                &&& final(self).user_deposits@ == old(self).user_deposits@
                &&& final(self).store.entries@.contains_key(addr)
                &&& ({
                    let entry = final(self).store.entries@[addr];
                    let was = old(self).store.entries@[addr];
                    &&& entry.status == State::Withdrawn
                    &&& entry.balance is None
                    &&& entry.claim_time == was.claim_time
                    &&& entry.claim_live_until == touched(
                        was.claim_live_until,
                        clock.sequence,
                        BALANCE_LIFETIME_THRESHOLD,
                        BALANCE_BUMP_AMOUNT,
                    )
                    &&& entry.balance_live_until == was.balance_live_until
                })
                &&& final(self).store.entries@.remove(addr) == old(self).store.entries@.remove(
                    addr,
                )
                &&& config_unchanged(*old(self), *final(self))
                &&& final(self).instance_live_until == touched(
                    old(self).instance_live_until,
                    clock.sequence,
                    INSTANCE_LIFETIME_THRESHOLD,
                    INSTANCE_BUMP_AMOUNT,
                )
            },
    {
        if !self.check_contract_initialized() {
            return Err(Error::ContractNotInitialized);
        }
        let entry = match self.store.read(addr) {
            Some(entry) => entry,
            None => {
                return Err(Error::AddressNotClaimableYet);
            },
        };
        if !claim_open(&entry, clock.timestamp) {
            return Err(Error::AddressNotClaimableYet);
        }
        // The schedule check above is time-based alone; a withdrawn
        // depositor's schedule persists, so the live record is checked
        // here, separately.
        let addr_balance = match entry.balance {
            Some(b) => b,
            None => {
                return Err(Error::AddressNotClaimableYet);
            },
        };
        if self.pool < addr_balance.total {
            return Err(Error::ContractInsufficientBalance);
        }
        self.touch_instance(clock);
        self.pool = self.pool - addr_balance.total;
        self.payouts = Ghost(self.payouts@ + addr_balance.total);
        reset_balance(self, clock, addr);
        proof {
            assert forall|a: u64| #[trigger] self.store.entries@.contains_key(a)
                implies Self::entry_inv(self.store.entries@[a], self.interest_rate) by {
                if a != addr {
                    assert(self.store.entries@.remove(addr).contains_key(a));
                    assert(old(self).store.entries@.remove(addr).contains_key(a));
                    assert(old(self).store.entries@.contains_key(a));
                    assert(self.store.entries@.remove(addr)[a] == self.store.entries@[a]);
                    assert(old(self).store.entries@.remove(addr)[a] == old(
                        self,
                    ).store.entries@[a]);
                }
            }
        }
        Ok(addr_balance.total)
    }

    /// Withdraws `amount` tokens from the pool to the admin and returns the
    /// remaining pool balance.  Refused when the pool holds less than
    /// `amount`; the pool never goes negative.
    ///
    /// The caller must have authenticated as the stored admin; the host
    /// enforces that and performs the transfer.
    pub fn admin_withdrawal(&mut self, clock: Clock, amount: i128) -> (r: Result<i128, Error>)
        requires
            old(self).well_formed(),
            clock.sequence + INSTANCE_BUMP_AMOUNT <= u32::MAX,
        ensures
            final(self).well_formed(),
            !old(self).is_initialized() ==> r == Err::<i128, Error>(Error::ContractNotInitialized)
                && *final(self) == *old(self),
            old(self).is_initialized() && amount <= 0 ==> r == Err::<i128, Error>(
                Error::AmountLessOrEqualThan0,
            ) && *final(self) == *old(self),
            old(self).is_initialized() && amount > 0 && old(self).pool < amount ==> r == Err::<
                i128,
                Error,
            >(Error::ContractInsufficientBalance) && *final(self) == *old(self),
            old(self).is_initialized() && amount > 0 && old(self).pool >= amount ==> {
                &&& r == Ok::<i128, Error>((old(self).pool - amount) as i128)
                &&& final(self).pool == old(self).pool - amount
                &&& final(self).payouts@ == old(self).payouts@ + amount
                &&& final(self).admin_deposits@ == old(self).admin_deposits@
                &&& final(self).user_deposits@ == old(self).user_deposits@
                &&& final(self).store.entries@ == old(self).store.entries@
                &&& config_unchanged(*old(self), *final(self))
                &&& final(self).instance_live_until == touched(
                    old(self).instance_live_until,
                    clock.sequence,
                    INSTANCE_LIFETIME_THRESHOLD,
                    INSTANCE_BUMP_AMOUNT,
                )
            },
    {
        if !self.check_contract_initialized() {
            return Err(Error::ContractNotInitialized);
        }
        if amount <= 0 {
            return Err(Error::AmountLessOrEqualThan0);
        }
        if self.pool < amount {
            return Err(Error::ContractInsufficientBalance);
        }
        self.touch_instance(clock);
        self.pool = self.pool - amount;
        self.payouts = Ghost(self.payouts@ + amount);
        Ok(self.pool)
    }

    /// Closes the account to new deposits, irreversibly.  Withdrawals and
    /// admin pool operations keep working.
    ///
    /// The caller must have authenticated as the stored admin; the host
    /// enforces that.
    pub fn stop_deposits(&mut self, clock: Clock) -> (r: Result<bool, Error>)
        requires
            old(self).well_formed(),
            clock.sequence + INSTANCE_BUMP_AMOUNT <= u32::MAX,
        ensures
            final(self).well_formed(),
            !old(self).is_initialized() ==> r == Err::<bool, Error>(Error::ContractNotInitialized)
                && *final(self) == *old(self),
            old(self).is_initialized() ==> r == Ok::<bool, Error>(true) && *final(self)
                == (PaidAccount {
                state: State::FinancingReached,
                instance_live_until: touched(
                    old(self).instance_live_until,
                    clock.sequence,
                    INSTANCE_LIFETIME_THRESHOLD,
                    INSTANCE_BUMP_AMOUNT,
                ),
                ..*old(self)
            }),
    {
        if !self.check_contract_initialized() {
            return Err(Error::ContractNotInitialized);
        }
        self.touch_instance(clock);
        self.state = State::FinancingReached;
        Ok(true)
    }
}

/// Conservation: in every well-formed account the pooled balance equals
/// total admin deposits plus total user deposits minus total payouts, and
/// is never negative.  Every operation keeps the account well-formed, so
/// this holds after any sequence of operations on a fresh account.
pub proof fn lemma_conservation(account: PaidAccount)
    requires
        account.well_formed(),
    ensures
        account.pool == account.admin_deposits@ + account.user_deposits@ - account.payouts@,
        account.pool >= 0,
{
}

} // verus!
