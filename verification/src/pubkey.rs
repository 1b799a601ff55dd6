//! 32-byte account addresses.

use vstd::prelude::*;
use vstd::std_specs::cmp::PartialEqSpecImpl;
use crate::bytes::slice_eq;

verus! {

/// Number of bytes in an account address.
pub const PUBKEY_BYTES: usize = 32;

/// An account or program address.
#[derive(Clone, Copy, Debug)]
pub struct Pubkey {
    pub bytes: [u8; 32],
}

impl View for Pubkey {
    type V = Seq<u8>;

    open spec fn view(&self) -> Seq<u8> {
        self.bytes@
    }
}

impl PartialEq for Pubkey {
    fn eq(&self, other: &Pubkey) -> (r: bool) {
        slice_eq(self.bytes.as_slice(), other.bytes.as_slice())
    }
}

impl PartialEqSpecImpl for Pubkey {
    open spec fn obeys_eq_spec() -> bool {
        true
    }

    open spec fn eq_spec(&self, other: &Pubkey) -> bool {
        self@ == other@
    }
}

impl Eq for Pubkey {}

impl Pubkey {
    pub fn new(bytes: [u8; 32]) -> (r: Pubkey)
        ensures
            r.bytes == bytes,
    {
        Pubkey { bytes }
    }

    pub proof fn lemma_view_injective(a: Pubkey, b: Pubkey)
        ensures
            (a@ == b@) <==> (a == b),
    {
        if a@ == b@ {
            assert(a.bytes =~= b.bytes);
        }
    }
}

/// Bytes of the address of this program.
pub const ID_BYTES: [u8; 32] = [
    253, 234, 179, 135, 26, 198, 199, 46, 175, 23, 74, 155, 87, 97, 146, 53, 218, 85, 17, 32, 195,
    254, 72, 91, 86, 100, 73, 104, 132, 63, 157, 161,
];

/// Bytes of the address of the runtime's secp256r1 precompile.
pub const SECP256R1_ID_BYTES: [u8; 32] = [
    6, 146, 13, 236, 47, 234, 113, 181, 183, 35, 129, 77, 116, 45, 169, 3, 28, 131, 231, 95, 219,
    121, 93, 86, 142, 117, 71, 128, 32, 0, 0, 0,
];

/// Bytes of the address of the runtime's system program.
pub const SYSTEM_PROGRAM_ID_BYTES: [u8; 32] = [
    0, 0, 0, 0, 0, 0, 0, 0, 0, 0, 0, 0, 0, 0, 0, 0, 0, 0, 0, 0, 0, 0, 0, 0, 0, 0, 0, 0, 0, 0, 0, 0,
];

/// Address of this program.
pub open spec fn program_id_spec() -> Pubkey {
    Pubkey { bytes: ID_BYTES }
}

/// Address of this program.
#[verifier::when_used_as_spec(program_id_spec)]
pub fn program_id() -> (r: Pubkey)
    ensures
        r == program_id_spec(),
{
    Pubkey { bytes: ID_BYTES }
}

/// Address of the runtime's secp256r1 signature-verification precompile.
pub open spec fn secp256r1_program_id_spec() -> Pubkey {
    Pubkey { bytes: SECP256R1_ID_BYTES }
}

/// Address of the runtime's secp256r1 signature-verification precompile.
#[verifier::when_used_as_spec(secp256r1_program_id_spec)]
pub fn secp256r1_program_id() -> (r: Pubkey)
    ensures
        r == secp256r1_program_id_spec(),
{
    Pubkey { bytes: SECP256R1_ID_BYTES }
}

/// Address of the runtime's system program.
pub open spec fn system_program_id_spec() -> Pubkey {
    Pubkey { bytes: SYSTEM_PROGRAM_ID_BYTES }
}

/// Address of the runtime's system program.
#[verifier::when_used_as_spec(system_program_id_spec)]
pub fn system_program_id() -> (r: Pubkey)
    ensures
        r == system_program_id_spec(),
{
    Pubkey { bytes: SYSTEM_PROGRAM_ID_BYTES }
}

} // verus!
