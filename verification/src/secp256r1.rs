//! Checks on the verification record of the secp256r1 precompile.
//!
//! The client places an instruction for the precompile in the same
//! transaction as the call to the engine. Its data is a 16-byte offset
//! header followed by the public key, the signature and the message.
//! The precompile verifies the signature; the engine checks that the
//! record speaks of exactly the key, signature and message it is about
//! to authorise.

use vstd::prelude::*;
use vstd::slice::slice_subrange;
use crate::account::{Instruction, InstructionView};
use crate::bytes::{le_value, read_u16_le, slice_eq};
use crate::error::LazorKitError;
use crate::pubkey::{secp256r1_program_id, Pubkey};

verus! {

/// Offset of the first byte after the offset header.
pub const SECP_DATA_START: usize = 16;

/// Length of a compressed public key.
pub const SECP_PUBKEY_SIZE: usize = 33;

/// Length of a signature.
pub const SECP_SIGNATURE_SIZE: usize = 64;

/// Offset of the signature within the record.
pub const SECP_SIGNATURE_OFFSET: usize = 49;

/// Offset of the message within the record.
pub const SECP_MESSAGE_OFFSET: usize = 113;

/// Marker for "this instruction" in the header's instruction indices.
pub const SECP_THIS_INSTRUCTION: u16 = 0xFFFF;

/// The 16-bit little-endian field of the header at `offset`.
pub open spec fn header_field(data: Seq<u8>, offset: int) -> nat {
    le_value(data.subrange(offset, offset + 2))
}

/// The offset header declares one signature, and places the key, the
/// signature and a message of `msg_len` bytes where the record holds
/// them, all three in the instruction itself.
pub open spec fn header_matches(data: Seq<u8>, msg_len: nat) -> bool {
    &&& data.len() >= 16
    &&& data[0] == 1
    &&& header_field(data, 2) == SECP_SIGNATURE_OFFSET
    &&& header_field(data, 4) == SECP_THIS_INSTRUCTION
    &&& header_field(data, 6) == SECP_DATA_START
    &&& header_field(data, 8) == SECP_THIS_INSTRUCTION
    &&& header_field(data, 10) == SECP_MESSAGE_OFFSET
    &&& header_field(data, 12) == msg_len
    &&& header_field(data, 14) == SECP_THIS_INSTRUCTION
}

/// The record holds exactly the given key, signature and message.
pub open spec fn payload_matches(
    data: Seq<u8>,
    public_key: Seq<u8>,
    signature: Seq<u8>,
    message: Seq<u8>,
) -> bool {
    &&& data.len() >= 113
    &&& data.subrange(16, 49) == public_key
    &&& data.subrange(49, 113) == signature
    &&& data.subrange(113, data.len() as int) == message
}

/// Verdict on the instruction `ix` as the verification record of
/// `signature` by `public_key` over `message`.
pub open spec fn verify_secp256r1_spec(
    ix: InstructionView,
    public_key: Seq<u8>,
    message: Seq<u8>,
    signature: Seq<u8>,
) -> Result<(), LazorKitError> {
    if ix.program_id != secp256r1_program_id() || ix.accounts.len() != 0 || ix.data.len() != 113
        + message.len() {
        Err(LazorKitError::Secp256r1InvalidLength)
    } else if !header_matches(ix.data, message.len()) {
        Err(LazorKitError::Secp256r1HeaderMismatch)
    } else if !payload_matches(ix.data, public_key, signature, message) {
        Err(LazorKitError::Secp256r1DataMismatch)
    } else {
        Ok(())
    }
}

/// Checks the offset header of a record.
fn verify_secp_header(data: &[u8], msg_len: usize) -> (r: bool)
    requires
        data@.len() >= 16,
    ensures
        r == header_matches(data@, msg_len as nat),
{
    data[0] == 1 && read_u16_le(data, 2) as usize == SECP_SIGNATURE_OFFSET && read_u16_le(data, 4)
        == SECP_THIS_INSTRUCTION && read_u16_le(data, 6) as usize == SECP_DATA_START
        && read_u16_le(data, 8) == SECP_THIS_INSTRUCTION && read_u16_le(data, 10) as usize
        == SECP_MESSAGE_OFFSET && read_u16_le(data, 12) as usize == msg_len && read_u16_le(data, 14)
        == SECP_THIS_INSTRUCTION
}

/// Compares the three regions of a record with the expected values.
fn verify_secp_data(data: &[u8], public_key: &[u8], signature: &[u8], message: &[u8]) -> (r: bool)
    requires
        data@.len() >= 113,
    ensures
        r == payload_matches(data@, public_key@, signature@, message@),
{
    slice_eq(slice_subrange(data, SECP_DATA_START, SECP_SIGNATURE_OFFSET), public_key) && slice_eq(
        slice_subrange(data, SECP_SIGNATURE_OFFSET, SECP_MESSAGE_OFFSET),
        signature,
    ) && slice_eq(slice_subrange(data, SECP_MESSAGE_OFFSET, data.len()), message)
}

/// Checks that `ix` is an instruction for the secp256r1 precompile that
/// verifies `sig` by `pubkey` over `msg`, and nothing else.
pub fn verify_secp256r1_instruction(
    ix: &Instruction,
    pubkey: &[u8; 33],
    msg: &[u8],
    sig: &[u8],
) -> (r: Result<(), LazorKitError>)
    ensures
        r == verify_secp256r1_spec(ix@, pubkey@, msg@, sig@),
{
    let precompile = secp256r1_program_id();
    proof {
        Pubkey::lemma_view_injective(ix.program_id, precompile);
    }
    if ix.program_id != precompile || ix.accounts.len() != 0 || ix.data.len()
        < SECP_MESSAGE_OFFSET || ix.data.len() - SECP_MESSAGE_OFFSET != msg.len() {
        return Err(LazorKitError::Secp256r1InvalidLength);
    }
    if !verify_secp_header(ix.data.as_slice(), msg.len()) {
        return Err(LazorKitError::Secp256r1HeaderMismatch);
    }
    if !verify_secp_data(ix.data.as_slice(), pubkey.as_slice(), sig, msg) {
        return Err(LazorKitError::Secp256r1DataMismatch);
    }
    Ok(())
}

/// An accepted record fixes the key, the signature and the message: no
/// other triple is accepted with the same instruction data.
pub proof fn lemma_record_binds_its_content(
    ix: InstructionView,
    public_key: Seq<u8>,
    message: Seq<u8>,
    signature: Seq<u8>,
    other_key: Seq<u8>,
    other_message: Seq<u8>,
    other_signature: Seq<u8>,
)
    requires
        verify_secp256r1_spec(ix, public_key, message, signature) is Ok,
        other_key != public_key || other_message != message || other_signature != signature,
    ensures
        verify_secp256r1_spec(ix, other_key, other_message, other_signature) is Err,
{
}

/// An accepted record is addressed to the precompile, names no account,
/// and holds a 64-byte signature and a message that fits the header.
pub proof fn lemma_accepted_record_shape(
    ix: InstructionView,
    public_key: Seq<u8>,
    message: Seq<u8>,
    signature: Seq<u8>,
)
    requires
        verify_secp256r1_spec(ix, public_key, message, signature) is Ok,
    ensures
        ix.program_id == secp256r1_program_id(),
        ix.accounts.len() == 0,
        public_key.len() == 33,
        signature.len() == 64,
        message.len() < 0x1_0000,
        ix.data.subrange(16, ix.data.len() as int) == public_key + signature + message,
{
    crate::bytes::lemma_le_value_bound(ix.data.subrange(12, 14));
    crate::bytes::lemma_pow256_values();
    assert(ix.data.subrange(16, ix.data.len() as int) =~= public_key + signature + message);
}

} // verus!
