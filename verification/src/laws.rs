//! System-level laws of the tip jar, stated over whole sequences of
//! operations.
//!
//! A `Ledger` is the ghost state of one jar together with every participant
//! account: `accounts[0]` is the jar itself, and the remaining entries are
//! the other participants an operation may involve. `ledger_step` applies
//! one operation with exactly the transition semantics of the handlers in
//! `machine` (a failed or inapplicable operation changes nothing), and
//! `ledger_run` folds a sequence of operations. The public proof functions
//! below establish the laws every run obeys.

use vstd::prelude::*;

use crate::machine::Operation;
use crate::machine::spec_deposit;
use crate::machine::spec_dispatch;
use crate::machine::spec_initialize;
use crate::machine::spec_send_tip;
use crate::record::Account;
use crate::record::Identity;
use crate::record::TipContract;
use crate::record::TipError;

verus! {

/// One requested operation, naming the involved participant by its index in
/// the ledger's account list (always distinct from the jar at index 0).
pub enum TipOp {
    Initialize { owner: int },
    Deposit { depositor: int },
    SendTip { recipient: int, amount: u64 },
}

/// The ghost state of one jar: its record and all participant accounts,
/// with the jar account itself at index 0.
pub struct Ledger {
    pub record: TipContract,
    pub accounts: Seq<Account>,
}

/// One transition of the ledger. An operation whose participant index is out
/// of range, whose state gate does not hold (Initialize on an initialized
/// record, Deposit or SendTip on an uninitialized one), or whose validated
/// transition fails, leaves the ledger unchanged — failures are atomic.
pub open spec fn ledger_step(l: Ledger, op: TipOp) -> Ledger {
    match op {
        TipOp::Initialize { owner } => {
            if !l.record.is_initialized && 1 <= owner < l.accounts.len() {
                Ledger { record: spec_initialize(l.record, l.accounts[owner].identity), ..l }
            } else {
                l
            }
        },
        TipOp::Deposit { depositor } => {
            if l.record.is_initialized && 1 <= depositor < l.accounts.len() {
                match spec_deposit(l.record, l.accounts[0], l.accounts[depositor]) {
                    Ok((new_record, new_jar, new_depositor)) => Ledger {
                        record: new_record,
                        accounts: l.accounts.update(0, new_jar).update(depositor, new_depositor),
                    },
                    Err(_) => l,
                }
            } else {
                l
            }
        },
        TipOp::SendTip { recipient, amount } => {
            if l.record.is_initialized && 1 <= recipient < l.accounts.len() {
                match spec_send_tip(l.accounts[0], l.accounts[recipient], amount) {
                    Ok((new_jar, new_recipient)) => Ledger {
                        record: l.record,
                        accounts: l.accounts.update(0, new_jar).update(recipient, new_recipient),
                    },
                    Err(_) => l,
                }
            } else {
                l
            }
        },
    }
}

/// A whole run: the ledger after applying each operation in order.
pub open spec fn ledger_run(l: Ledger, ops: Seq<TipOp>) -> Ledger
    decreases ops.len(),
{
    if ops.len() == 0 {
        l
    } else {
        ledger_run(ledger_step(l, ops[0]), ops.skip(1))
    }
}

/// The total value held across all accounts, jar included, as an unbounded
/// integer.
pub open spec fn total_value(accounts: Seq<Account>) -> int
    decreases accounts.len(),
{
    if accounts.len() == 0 {
        0
    } else {
        accounts[0].balance + total_value(accounts.skip(1))
    }
}

proof fn lemma_total_value_update(accounts: Seq<Account>, i: int, a: Account)
    requires
        0 <= i < accounts.len(),
    ensures
        total_value(accounts.update(i, a)) == total_value(accounts) - accounts[i].balance
            + a.balance,
    decreases accounts.len(),
{
    if i == 0 {
        assert(accounts.update(0, a).skip(1) =~= accounts.skip(1));
    } else {
        assert(accounts.update(i, a).skip(1) =~= accounts.skip(1).update(i - 1, a));
        lemma_total_value_update(accounts.skip(1), i - 1, a);
    }
}

/// Conservation, one step: no operation creates or destroys value — the
/// total across all accounts is exactly what it was, whether the operation
/// applied or failed.
pub proof fn lemma_step_conserves_value(l: Ledger, op: TipOp)
    ensures
        total_value(ledger_step(l, op).accounts) == total_value(l.accounts),
{
    match op {
        TipOp::Initialize { .. } => {},
        TipOp::Deposit { depositor } => {
            if l.record.is_initialized && 1 <= depositor < l.accounts.len() {
                match spec_deposit(l.record, l.accounts[0], l.accounts[depositor]) {
                    Ok((new_record, new_jar, new_depositor)) => {
                        let once = l.accounts.update(0, new_jar);
                        lemma_total_value_update(l.accounts, 0, new_jar);
                        lemma_total_value_update(once, depositor, new_depositor);
                    },
                    Err(_) => {},
                }
            }
        },
        TipOp::SendTip { recipient, amount } => {
            if l.record.is_initialized && 1 <= recipient < l.accounts.len() {
                match spec_send_tip(l.accounts[0], l.accounts[recipient], amount) {
                    Ok((new_jar, new_recipient)) => {
                        let once = l.accounts.update(0, new_jar);
                        lemma_total_value_update(l.accounts, 0, new_jar);
                        lemma_total_value_update(once, recipient, new_recipient);
                    },
                    Err(_) => {},
                }
            }
        },
    }
}

/// Conservation, whole runs: across any sequence of operations the total
/// value across all accounts is invariant.
pub proof fn lemma_run_conserves_value(l: Ledger, ops: Seq<TipOp>)
    ensures
        total_value(ledger_run(l, ops).accounts) == total_value(l.accounts),
    decreases ops.len(),
{
    if ops.len() > 0 {
        lemma_step_conserves_value(l, ops[0]);
        lemma_run_conserves_value(ledger_step(l, ops[0]), ops.skip(1));
    }
}

/// No negative balances: in every state a run can reach, every account
/// balance is non-negative. Balances are unsigned, and every debit is
/// checked against the available balance before it is applied, so no
/// transition can wrap a balance below zero.
pub proof fn lemma_run_balances_nonnegative(l: Ledger, ops: Seq<TipOp>)
    ensures
        forall|i: int|
            0 <= i < ledger_run(l, ops).accounts.len() ==> ledger_run(
                l,
                ops,
            ).accounts[i].balance >= 0,
{
}

/// Monotonicity, one step: no operation ever decreases the cumulative
/// deposit counter, and a tip leaves the whole record untouched.
pub proof fn lemma_step_deposited_monotonic(l: Ledger, op: TipOp)
    ensures
        ledger_step(l, op).record.deposited_amount >= l.record.deposited_amount,
        op is SendTip ==> ledger_step(l, op).record == l.record,
{
}

/// Monotonicity, whole runs: the cumulative deposit counter never decreases
/// across any sequence of operations.
pub proof fn lemma_run_deposited_monotonic(l: Ledger, ops: Seq<TipOp>)
    ensures
        ledger_run(l, ops).record.deposited_amount >= l.record.deposited_amount,
    decreases ops.len(),
{
    if ops.len() > 0 {
        lemma_step_deposited_monotonic(l, ops[0]);
        lemma_run_deposited_monotonic(ledger_step(l, ops[0]), ops.skip(1));
    }
}

/// Initialize is single-shot, at the dispatch rule: an uninitialized record
/// routes every caller to Initialize, and once initialized no caller is ever
/// routed to Initialize again — the owner's calls disburse, all others
/// deposit.
pub proof fn lemma_initialize_single_shot(r: TipContract, owner: Identity, caller: Identity)
    requires
        !r.is_initialized,
    ensures
        spec_dispatch(r, caller) == Operation::Initialize,
        spec_dispatch(spec_initialize(r, owner), caller) != Operation::Initialize,
        spec_dispatch(spec_initialize(r, owner), caller) == if caller == owner {
            Operation::SendTip
        } else {
            Operation::Deposit
        },
{
}

/// Initialize is single-shot, at the ledger: on an initialized record an
/// Initialize operation is a no-op.
pub proof fn lemma_initialize_noop_when_initialized(l: Ledger, owner: int)
    requires
        l.record.is_initialized,
    ensures
        ledger_step(l, TipOp::Initialize { owner }) == l,
{
}

/// Overflow safety of deposits: a deposit whose credit would overflow the
/// jar balance or the cumulative counter fails with `InsufficientFunds`
/// (the handler then leaves every balance and the record unchanged).
pub proof fn lemma_deposit_overflow_fails(r: TipContract, jar: Account, depositor: Account)
    requires
        depositor.balance > 0,
        jar.balance + depositor.balance > u64::MAX || r.deposited_amount + depositor.balance
            > u64::MAX,
    ensures
        spec_deposit(r, jar, depositor) == Err::<
            (TipContract, Account, Account),
            _,
        >(TipError::InsufficientFunds),
{
}

/// Overflow safety of tips: a tip whose credit would overflow the recipient
/// balance fails with `InsufficientFunds` (the handler then leaves both
/// balances unchanged).
pub proof fn lemma_send_tip_overflow_fails(jar: Account, recipient: Account, amount: u64)
    requires
        jar.balance >= amount,
        recipient.balance + amount > u64::MAX,
    ensures
        spec_send_tip(jar, recipient, amount) == Err::<
            (Account, Account),
            _,
        >(TipError::InsufficientFunds),
{
}

} // verus!
