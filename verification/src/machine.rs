//! Tip state machine: dispatch and the three operation handlers.
//!
//! Each invocation performs exactly one operation, chosen by the dispatch
//! rule from the record's state and the invoking (jar) account's identity:
//! an uninitialized record takes Initialize; on an initialized record the
//! owner's own invocation disburses a tip, and anyone else's deposits.
//!
//! Every handler either applies its whole transition or fails leaving all
//! balances and the record unchanged; arithmetic is checked throughout.

use vstd::bytes::spec_u64_from_le_bytes;
use vstd::bytes::u64_from_le_bytes;
use vstd::prelude::*;
use vstd::slice::slice_subrange;

use crate::codec::spec_decode;
use crate::codec::spec_encode;
use crate::codec::decode;
use crate::codec::encode;
use crate::record::Account;
use crate::record::Identity;
use crate::record::TipContract;
use crate::record::TipError;

verus! {

/// The three operations the machine can perform.
#[derive(Clone, Copy, PartialEq, Eq, Structural, Debug)]
pub enum Operation {
    Initialize,
    Deposit,
    SendTip,
}

/// Dispatch rule, first match wins: an uninitialized record always routes to
/// Initialize; on an initialized record the owner is routed to SendTip and
/// every other caller to Deposit.
pub open spec fn spec_dispatch(r: TipContract, caller: Identity) -> Operation {
    if !r.is_initialized {
        Operation::Initialize
    } else if caller == r.owner {
        Operation::SendTip
    } else {
        Operation::Deposit
    }
}

/// Selects the operation one invocation will perform, per the dispatch rule.
pub fn dispatch(record: &TipContract, caller: &Identity) -> (op: Operation)
    ensures
        op == spec_dispatch(*record, *caller),
{
    if !record.is_initialized {
        Operation::Initialize
    } else if *caller == record.owner {
        Operation::SendTip
    } else {
        Operation::Deposit
    }
}

/// The record after Initialize establishes `owner` as the principal.
/// The cumulative deposit counter is left untouched; on an uninitialized
/// record's default (all-zero) storage it is zero.
pub open spec fn spec_initialize(r: TipContract, owner: Identity) -> TipContract {
    TipContract { is_initialized: true, owner, deposited_amount: r.deposited_amount }
}

/// Deposit transition: the depositor's entire balance moves into the jar and
/// the cumulative counter grows by the same amount. Fails with
/// `InsufficientFunds` when the depositor holds nothing, or when either
/// credit would overflow.
pub open spec fn spec_deposit(r: TipContract, jar: Account, depositor: Account) -> Result<
    (TipContract, Account, Account),
    TipError,
> {
    let amount = depositor.balance;
    if amount == 0 {
        Err(TipError::InsufficientFunds)
    } else if jar.balance + amount > u64::MAX {
        Err(TipError::InsufficientFunds)
    } else if r.deposited_amount + amount > u64::MAX {
        Err(TipError::InsufficientFunds)
    } else {
        Ok(
            (
                TipContract { deposited_amount: (r.deposited_amount + amount) as u64, ..r },
                Account { balance: (jar.balance + amount) as u64, ..jar },
                Account { balance: 0u64, ..depositor },
            ),
        )
    }
}

/// SendTip transition on an already-parsed amount: the jar is debited and
/// the recipient credited. Fails with `InsufficientFunds` when the jar holds
/// less than `amount` or when the credit would overflow. The record is not
/// part of the transition: a tip never changes it.
pub open spec fn spec_send_tip(jar: Account, recipient: Account, amount: u64) -> Result<
    (Account, Account),
    TipError,
> {
    if jar.balance < amount {
        Err(TipError::InsufficientFunds)
    } else if recipient.balance + amount > u64::MAX {
        Err(TipError::InsufficientFunds)
    } else {
        Ok(
            (
                Account { balance: (jar.balance - amount) as u64, ..jar },
                Account { balance: (recipient.balance + amount) as u64, ..recipient },
            ),
        )
    }
}

/// SendTip transition on a raw instruction payload: the amount is the 64-bit
/// little-endian integer in the payload's first eight bytes; a shorter
/// payload fails with `MalformedInstruction`.
pub open spec fn spec_send_tip_instr(jar: Account, recipient: Account, instr: Seq<u8>) -> Result<
    (Account, Account),
    TipError,
> {
    if instr.len() < 8 {
        Err(TipError::MalformedInstruction)
    } else {
        spec_send_tip(jar, recipient, spec_u64_from_le_bytes(instr.subrange(0, 8)))
    }
}

/// Establishes ownership of an uninitialized jar. No value moves.
pub fn initialize_contract(tip_contract: &mut TipContract, owner: &Account)
    requires
        !old(tip_contract).is_initialized,
    ensures
        *final(tip_contract) == spec_initialize(*old(tip_contract), owner.identity),
        final(tip_contract).is_initialized,
        final(tip_contract).owner == owner.identity,
        final(tip_contract).deposited_amount == old(tip_contract).deposited_amount,
{
    tip_contract.is_initialized = true;
    tip_contract.owner = owner.identity;
}

/// Moves the depositor's entire balance into the jar, atomically with the
/// growth of the cumulative deposit counter: on any failure nothing is
/// changed. Value is conserved: the jar gains exactly what the depositor
/// loses.
pub fn deposit_into_contract(
    tip_contract: &mut TipContract,
    jar: &mut Account,
    depositor: &mut Account,
) -> (res: Result<(), TipError>)
    requires
        old(tip_contract).is_initialized,
    ensures
        match res {
            Ok(()) => spec_deposit(*old(tip_contract), *old(jar), *old(depositor)) == Ok::<
                _,
                TipError,
            >((*final(tip_contract), *final(jar), *final(depositor))),
            Err(e) => {
                &&& spec_deposit(*old(tip_contract), *old(jar), *old(depositor)) == Err::<
                    (TipContract, Account, Account),
                    _,
                >(e)
                &&& *final(tip_contract) == *old(tip_contract)
                &&& *final(jar) == *old(jar)
                &&& *final(depositor) == *old(depositor)
            },
        },
        final(jar).balance + final(depositor).balance == old(jar).balance + old(
            depositor,
        ).balance,
        final(tip_contract).deposited_amount >= old(tip_contract).deposited_amount,
        final(tip_contract).is_initialized == old(tip_contract).is_initialized,
        final(tip_contract).owner == old(tip_contract).owner,
{
    let amount = depositor.balance;
    if amount == 0 {
        return Err(TipError::InsufficientFunds);
    }
    let new_jar_balance = match jar.balance.checked_add(amount) {
        Some(b) => b,
        None => {
            return Err(TipError::InsufficientFunds);
        },
    };
    let new_deposited = match tip_contract.deposited_amount.checked_add(amount) {
        Some(d) => d,
        None => {
            return Err(TipError::InsufficientFunds);
        },
    };
    depositor.balance = 0;
    jar.balance = new_jar_balance;
    tip_contract.deposited_amount = new_deposited;
    Ok(())
}

/// Disburses a tip from the jar to the recipient, the amount read from the
/// payload's first eight bytes (little-endian). Atomic: on any failure both
/// balances are unchanged. Value is conserved, and the record is untouched
/// by construction (the handler only reads it).
pub fn send_tip(
    tip_contract: &TipContract,
    instruction_data: &[u8],
    jar: &mut Account,
    recipient: &mut Account,
) -> (res: Result<(), TipError>)
    requires
        tip_contract.is_initialized,
        old(jar).identity == tip_contract.owner,
    ensures
        match res {
            Ok(()) => spec_send_tip_instr(*old(jar), *old(recipient), instruction_data@) == Ok::<
                _,
                TipError,
            >((*final(jar), *final(recipient))),
            Err(e) => {
                &&& spec_send_tip_instr(*old(jar), *old(recipient), instruction_data@) == Err::<
                    (Account, Account),
                    _,
                >(e)
                &&& *final(jar) == *old(jar)
                &&& *final(recipient) == *old(recipient)
            },
        },
        final(jar).balance + final(recipient).balance == old(jar).balance + old(
            recipient,
        ).balance,
{
    if instruction_data.len() < 8 {
        return Err(TipError::MalformedInstruction);
    }
    let amount = u64_from_le_bytes(slice_subrange(instruction_data, 0, 8));
    if jar.balance < amount {
        return Err(TipError::InsufficientFunds);
    }
    let new_recipient_balance = match recipient.balance.checked_add(amount) {
        Some(b) => b,
        None => {
            return Err(TipError::InsufficientFunds);
        },
    };
    jar.balance = jar.balance - amount;
    recipient.balance = new_recipient_balance;
    Ok(())
}

/// The whole invocation as one mathematical function: decode the record from
/// the jar's backing buffer, dispatch, run the operation against the
/// supplied accounts (index 0 is the jar; each operation consumes one more),
/// and re-encode. Returns the new buffer contents and account balances, or
/// the error that aborts the invocation with nothing changed.
pub open spec fn spec_process(
    record_data: Seq<u8>,
    accounts: Seq<Account>,
    instr: Seq<u8>,
) -> Result<(Seq<u8>, Seq<Account>), TipError> {
    match spec_decode(record_data) {
        Err(e) => Err(e),
        Ok(record) => {
            if accounts.len() < 2 {
                Err(TipError::MissingAccount)
            } else {
                let jar = accounts[0];
                let other = accounts[1];
                match spec_dispatch(record, jar.identity) {
                    Operation::Initialize => {
                        let new_record = spec_initialize(record, other.identity);
                        Ok((spec_encode(new_record), accounts))
                    },
                    Operation::Deposit => match spec_deposit(record, jar, other) {
                        Err(e) => Err(e),
                        Ok((new_record, new_jar, new_depositor)) => Ok(
                            (
                                spec_encode(new_record),
                                accounts.update(0, new_jar).update(1, new_depositor),
                            ),
                        ),
                    },
                    Operation::SendTip => match spec_send_tip_instr(jar, other, instr) {
                        Err(e) => Err(e),
                        Ok((new_jar, new_recipient)) => Ok(
                            (
                                spec_encode(record),
                                accounts.update(0, new_jar).update(1, new_recipient),
                            ),
                        ),
                    },
                }
            }
        },
    }
}

/// Processes one invocation. `record_data` is the jar account's backing
/// buffer, `accounts[0]` the jar itself and `accounts[1]` the operation's
/// additional participant (owner-designate, depositor, or recipient).
/// On success the returned bytes are the re-encoded record for the host to
/// commit and the balances in `accounts` have been updated; on failure the
/// accounts are left exactly as they were.
pub fn process_instruction(
    record_data: &[u8],
    accounts: &mut Vec<Account>,
    instruction_data: &[u8],
) -> (res: Result<Vec<u8>, TipError>)
    ensures
        match res {
            Ok(out) => spec_process(record_data@, old(accounts)@, instruction_data@) == Ok::<
                _,
                TipError,
            >((out@, final(accounts)@)),
            Err(e) => {
                &&& spec_process(record_data@, old(accounts)@, instruction_data@) == Err::<
                    (Seq<u8>, Seq<Account>),
                    _,
                >(e)
                &&& final(accounts)@ == old(accounts)@
            },
        },
{
    let mut record = decode(record_data)?;
    if accounts.len() < 2 {
        return Err(TipError::MissingAccount);
    }
    let mut jar = accounts[0];
    let mut other = accounts[1];
    if !record.is_initialized {
        initialize_contract(&mut record, &other);
    } else if jar.identity == record.owner {
        send_tip(&record, instruction_data, &mut jar, &mut other)?;
        accounts.set(0, jar);
        accounts.set(1, other);
    } else {
        deposit_into_contract(&mut record, &mut jar, &mut other)?;
        accounts.set(0, jar);
        accounts.set(1, other);
    }
    Ok(encode(&record))
}

} // verus!
