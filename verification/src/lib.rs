//! A time-locked, interest-accruing escrow account.
//!
//! Depositors lock tokens for a configured minimum number of days, earn a
//! flat interest fixed at deposit time, and may withdraw principal plus
//! interest once the lock matures.  An administrator funds the interest pool
//! and can permanently close the account to new deposits.
//!
//! The account lives inside a host that supplies four collaborators: a keyed
//! persistent store with per-key expiry, an authorization primitive, a
//! fungible-token transfer primitive, and the ledger clock.  This crate
//! verifies the part the host cannot: the balance ledger, the interest
//! computation, and the claim/withdrawal state machine.  [`PaidAccount`]
//! models the account's whole persistent state as plain values; every public
//! operation is a verified transition on it, and the host-facing adapter only
//! loads values, runs a transition, and applies the recorded effects.
//!
//! The contracts state, among others:
//! - conservation: every operation keeps the pool equal to total deposits
//!   minus total payouts and never negative ([`contract::lemma_conservation`]
//!   and the `well_formed` clause of every operation);
//! - idempotent initialization: a second `init` always fails and changes
//!   nothing (the `ensures` of [`contract::PaidAccount::init`]);
//! - deposit exclusivity: while a depositor's status is `Deposited`, a
//!   further deposit from them always fails, and only a full withdrawal
//!   clears the status (the `ensures` of `user_deposit` and
//!   `user_withdrawal`);
//! - claim monotonicity: a stored schedule is claimable at no time before
//!   its unlock timestamp and at every time from it on
//!   ([`claim::lemma_claim_monotonic`]); paying out additionally needs a
//!   live balance record, which `user_withdrawal` checks separately;
//! - flat interest: the amount fixed at deposit time is a function of
//!   principal and rate alone (the `ensures` of
//!   [`interest::calculate_interest`]).
//!
//! [`PaidAccount`]: contract::PaidAccount

pub mod balance;
pub mod claim;
pub mod contract;
pub mod data;
pub mod interest;
