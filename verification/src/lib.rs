//! A verified tip-jar state machine.
//!
//! One persistent record (`TipContract`) governs a pooled balance held by a
//! "jar" account. A designated owner collects deposits from arbitrary
//! contributors and disburses tips to chosen recipients. The record is
//! persisted as a fixed-layout byte buffer; each invocation decodes it,
//! dispatches on record state and caller identity, applies exactly one
//! validated transition, and re-encodes the record for the host to commit.

pub mod codec;
pub mod laws;
pub mod machine;
pub mod record;

pub use record::Account;
pub use record::Identity;
pub use record::TipContract;
pub use record::TipError;
