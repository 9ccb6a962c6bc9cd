//! Record codec: fixed-layout binary serialization of `TipContract`.
//!
//! Layout, 41 bytes total:
//!   byte 0        initialization flag, 0 or 1
//!   bytes 1..33   owner identity, four 64-bit words in little-endian order
//!   bytes 33..41  deposited amount, 64-bit little-endian
//!
//! An all-zero buffer decodes to the uninitialized record, so freshly
//! allocated (zeroed) backing storage starts a jar in its initial state.

use vstd::bytes::lemma_auto_spec_u64_to_from_le_bytes;
use vstd::bytes::spec_u64_from_le_bytes;
use vstd::bytes::spec_u64_to_le_bytes;
use vstd::bytes::u64_from_le_bytes;
use vstd::bytes::u64_to_le_bytes;
use vstd::prelude::*;
use vstd::slice::slice_index_get;
use vstd::slice::slice_subrange;

use crate::record::Identity;
use crate::record::TipContract;
use crate::record::TipError;

verus! {

/// The exact number of bytes of an encoded record.
pub const RECORD_LEN: usize = 41;

/// The byte sequence that `encode` produces for a record.
pub open spec fn spec_encode(r: TipContract) -> Seq<u8> {
    seq![if r.is_initialized { 1u8 } else { 0u8 }] + spec_u64_to_le_bytes(r.owner.w0)
        + spec_u64_to_le_bytes(r.owner.w1) + spec_u64_to_le_bytes(r.owner.w2)
        + spec_u64_to_le_bytes(r.owner.w3) + spec_u64_to_le_bytes(r.deposited_amount)
}

/// Whether a buffer is a well-formed encoded record: exactly the fixed
/// length, with a valid initialization flag.
pub open spec fn spec_well_formed(s: Seq<u8>) -> bool {
    &&& s.len() == RECORD_LEN
    &&& (s[0] == 0 || s[0] == 1)
}

/// The record that a well-formed buffer denotes.
pub open spec fn spec_decoded(s: Seq<u8>) -> TipContract {
    TipContract {
        is_initialized: s[0] == 1,
        owner: Identity {
            w0: spec_u64_from_le_bytes(s.subrange(1, 9)),
            w1: spec_u64_from_le_bytes(s.subrange(9, 17)),
            w2: spec_u64_from_le_bytes(s.subrange(17, 25)),
            w3: spec_u64_from_le_bytes(s.subrange(25, 33)),
        },
        deposited_amount: spec_u64_from_le_bytes(s.subrange(33, 41)),
    }
}

/// What `decode` returns: the denoted record for a well-formed buffer, and
/// `MalformedRecord` for every other buffer.
pub open spec fn spec_decode(s: Seq<u8>) -> Result<TipContract, TipError> {
    if spec_well_formed(s) {
        Ok(spec_decoded(s))
    } else {
        Err(TipError::MalformedRecord)
    }
}

/// Serializes a record into its fixed 41-byte layout.
pub fn encode(r: &TipContract) -> (out: Vec<u8>)
    ensures
        out@ == spec_encode(*r),
        out@.len() == RECORD_LEN,
{
    proof {
        lemma_auto_spec_u64_to_from_le_bytes();
    }
    let mut out: Vec<u8> = Vec::new();
    out.push(if r.is_initialized {
        1u8
    } else {
        0u8
    });
    let mut w = u64_to_le_bytes(r.owner.w0);
    out.append(&mut w);
    let mut w = u64_to_le_bytes(r.owner.w1);
    out.append(&mut w);
    let mut w = u64_to_le_bytes(r.owner.w2);
    out.append(&mut w);
    let mut w = u64_to_le_bytes(r.owner.w3);
    out.append(&mut w);
    let mut w = u64_to_le_bytes(r.deposited_amount);
    out.append(&mut w);
    out
}

/// Deserializes a record from its backing buffer. Fails with
/// `MalformedRecord` unless the buffer has exactly the fixed layout.
pub fn decode(bytes: &[u8]) -> (res: Result<TipContract, TipError>)
    ensures
        res == spec_decode(bytes@),
{
    proof {
        lemma_auto_spec_u64_to_from_le_bytes();
    }
    if bytes.len() != RECORD_LEN {
        return Err(TipError::MalformedRecord);
    }
    let flag = *slice_index_get(bytes, 0);
    if flag > 1 {
        return Err(TipError::MalformedRecord);
    }
    let w0 = u64_from_le_bytes(slice_subrange(bytes, 1, 9));
    let w1 = u64_from_le_bytes(slice_subrange(bytes, 9, 17));
    let w2 = u64_from_le_bytes(slice_subrange(bytes, 17, 25));
    let w3 = u64_from_le_bytes(slice_subrange(bytes, 25, 33));
    let deposited_amount = u64_from_le_bytes(slice_subrange(bytes, 33, 41));
    Ok(
        TipContract {
            is_initialized: flag == 1,
            owner: Identity { w0, w1, w2, w3 },
            deposited_amount,
        },
    )
}

/// Round-trip law: every record decodes back from its own encoding.
pub proof fn lemma_encode_decode_round_trip(r: TipContract)
    ensures
        spec_decode(spec_encode(r)) == Ok::<TipContract, TipError>(r),
{
    lemma_auto_spec_u64_to_from_le_bytes();
    let s = spec_encode(r);
    assert(s.subrange(1, 9) =~= spec_u64_to_le_bytes(r.owner.w0));
    assert(s.subrange(9, 17) =~= spec_u64_to_le_bytes(r.owner.w1));
    assert(s.subrange(17, 25) =~= spec_u64_to_le_bytes(r.owner.w2));
    assert(s.subrange(25, 33) =~= spec_u64_to_le_bytes(r.owner.w3));
    assert(s.subrange(33, 41) =~= spec_u64_to_le_bytes(r.deposited_amount));
}

} // verus!
