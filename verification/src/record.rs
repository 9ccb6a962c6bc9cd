//! Core data model: identities, accounts, the persistent tip record, and the
//! error taxonomy of the state machine.

use vstd::prelude::*;

verus! {

/// An opaque 256-bit principal identifier (for example, a public key),
/// stored as four 64-bit words in little-endian order. Identities are only
/// ever compared for equality.
#[derive(Clone, Copy, PartialEq, Eq, Structural, Debug)]
pub struct Identity {
    pub w0: u64,
    pub w1: u64,
    pub w2: u64,
    pub w3: u64,
}

/// One participant account handle as supplied by the host for an invocation:
/// an identity and a mutable value balance.
#[derive(Clone, Copy, PartialEq, Eq, Structural, Debug)]
pub struct Account {
    pub identity: Identity,
    pub balance: u64,
}

/// The sole persistent entity: one instance per tip jar. `deposited_amount`
/// is a cumulative audit counter, not a spendable balance; the spendable
/// balance is the jar account's own value balance.
#[derive(Clone, Copy, PartialEq, Eq, Structural, Debug)]
pub struct TipContract {
    pub is_initialized: bool,
    pub owner: Identity,
    pub deposited_amount: u64,
}

/// The failure taxonomy. `InsufficientFunds` covers both a genuine balance
/// shortfall and arithmetic overflow on a credit, deliberately reusing one
/// kind for both conditions.
#[derive(Clone, Copy, PartialEq, Eq, Structural, Debug)]
pub enum TipError {
    /// The persisted bytes cannot be decoded into a record.
    MalformedRecord,
    /// The instruction payload is shorter than a disbursement requires.
    MalformedInstruction,
    /// Fewer participant accounts were supplied than the operation requires.
    MissingAccount,
    /// A debit exceeds the available balance, or a credit would overflow.
    InsufficientFunds,
}

} // verus!
