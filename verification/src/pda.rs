//! Program-derived addresses and the seeds the engine signs with.

use vstd::prelude::*;
use crate::bytes::{le_bytes, to_vec, write_u64_le};
use crate::hash::{passkey_hash, PasskeyExt};
use crate::pubkey::{program_id, Pubkey};
use crate::state::{
    SMART_WALLET_DATA_SEED, SMART_WALLET_SEED, TRANSACTION_SESSION_SEED, WALLET_DEVICE_SEED,
};

verus! {

/// The address that the runtime derives from `seeds` under the program
/// `program_id`, with the bump seed it found, if it found one.
pub uninterp spec fn derived_address(seeds: Seq<Seq<u8>>, program_id: Seq<u8>) -> Option<
    (Seq<u8>, u8),
>;

/// The byte strings that a list of seeds holds.
pub open spec fn seed_bytes(seeds: Seq<Vec<u8>>) -> Seq<Seq<u8>> {
    Seq::new(seeds.len(), |i: int| seeds[i]@)
}

/// [`derived_address`] as a key.
pub open spec fn program_address(seeds: Seq<Seq<u8>>, program_id: Pubkey) -> Option<(Pubkey, u8)> {
    match derived_address(seeds, program_id@) {
        None => None,
        Some((bytes, bump)) => Some((Pubkey { bytes: crate::bytes::array_of(bytes) }, bump)),
    }
}

/// Calls `Pubkey::try_find_program_address`. Trusted: the outcome
/// depends on the seeds and the program id alone, and is `None` where
/// the runtime derives no address from them.
#[verifier::external_body]
pub(crate) fn find_program_address(seeds: &Vec<Vec<u8>>, program_id: &Pubkey) -> (r: Option<
    (Pubkey, u8),
>)
    ensures
        match r {
            None => derived_address(seed_bytes(seeds@), program_id@) is None,
            Some((key, bump)) => derived_address(seed_bytes(seeds@), program_id@) == Some(
                (key@, bump),
            ),
        },
{
    let slices: Vec<&[u8]> = seeds.iter().map(|s| s.as_slice()).collect();
    let id = anchor_lang::prelude::Pubkey::new_from_array(program_id.bytes);
    match anchor_lang::prelude::Pubkey::try_find_program_address(&slices, &id) {
        None => None,
        Some((key, bump)) => Some((Pubkey { bytes: key.to_bytes() }, bump)),
    }
}

/// Derives the address for `seeds` under `program`.
pub fn derive_address(seeds: &Vec<Vec<u8>>, program: &Pubkey) -> (r: Option<(Pubkey, u8)>)
    ensures
        r == program_address(seed_bytes(seeds@), *program),
{
    let r = find_program_address(seeds, program);
    proof {
        if let Some((key, bump)) = r {
            crate::bytes::lemma_array_of::<32>(key@);
        }
    }
    r
}

/// Seeds and bump seed of an address the engine signs for.
#[derive(Clone, Debug)]
pub struct PdaSigner {
    /// Seeds of the address, without the bump seed.
    pub seeds: Vec<Vec<u8>>,
    /// Bump seed of the address.
    pub bump: u8,
}

/// Mathematical content of a [`PdaSigner`].
pub struct PdaSignerView {
    pub seeds: Seq<Seq<u8>>,
    pub bump: u8,
}

impl View for PdaSigner {
    type V = PdaSignerView;

    open spec fn view(&self) -> PdaSignerView {
        PdaSignerView { seeds: seed_bytes(self.seeds@), bump: self.bump }
    }
}

/// Seeds of the device record of `passkey` on `wallet`: the device
/// prefix, the wallet address, and the digest of the passkey bound to
/// the wallet.
pub open spec fn device_seeds(passkey: Seq<u8>, wallet: Pubkey) -> Seq<Seq<u8>> {
    seq![WALLET_DEVICE_SEED@, wallet@, passkey_hash(passkey, wallet)]
}

/// Seeds of the wallet with identifier `wallet_id`: the wallet prefix
/// and the identifier in little-endian bytes.
pub open spec fn wallet_seeds(wallet_id: u64) -> Seq<Seq<u8>> {
    seq![SMART_WALLET_SEED@, le_bytes(wallet_id as nat, 8)]
}

/// Seeds of the data record of `wallet`.
pub open spec fn wallet_data_seeds(wallet: Pubkey) -> Seq<Seq<u8>> {
    seq![SMART_WALLET_DATA_SEED@, wallet@]
}

/// Seeds of the session that `wallet` opens with the nonce `nonce`.
pub open spec fn session_seeds(wallet: Pubkey, nonce: u64) -> Seq<Seq<u8>> {
    seq![TRANSACTION_SESSION_SEED@, wallet@, le_bytes(nonce as nat, 8)]
}

fn seed_of_u64(v: u64) -> (out: Vec<u8>)
    ensures
        out@ == le_bytes(v as nat, 8),
{
    let mut out: Vec<u8> = Vec::new();
    write_u64_le(&mut out, v);
    assert(out@ =~= le_bytes(v as nat, 8));
    out
}

/// Builds the seeds of a device record.
pub fn device_seed_list(passkey: &[u8; 33], wallet: Pubkey) -> (seeds: Vec<Vec<u8>>)
    ensures
        seed_bytes(seeds@) == device_seeds(passkey@, wallet),
{
    let mut seeds: Vec<Vec<u8>> = Vec::new();
    seeds.push(to_vec(WALLET_DEVICE_SEED.as_slice()));
    seeds.push(to_vec(wallet.bytes.as_slice()));
    let digest = passkey.to_hashed_bytes(wallet);
    seeds.push(to_vec(digest.as_slice()));
    assert(seed_bytes(seeds@) =~= device_seeds(passkey@, wallet));
    seeds
}

/// Builds the seeds of a wallet.
pub fn wallet_seed_list(wallet_id: u64) -> (seeds: Vec<Vec<u8>>)
    ensures
        seed_bytes(seeds@) == wallet_seeds(wallet_id),
{
    let mut seeds: Vec<Vec<u8>> = Vec::new();
    seeds.push(to_vec(SMART_WALLET_SEED.as_slice()));
    seeds.push(seed_of_u64(wallet_id));
    assert(seed_bytes(seeds@) =~= wallet_seeds(wallet_id));
    seeds
}

/// Builds the seeds of a wallet's data record.
pub fn wallet_data_seed_list(wallet: Pubkey) -> (seeds: Vec<Vec<u8>>)
    ensures
        seed_bytes(seeds@) == wallet_data_seeds(wallet),
{
    let mut seeds: Vec<Vec<u8>> = Vec::new();
    seeds.push(to_vec(SMART_WALLET_DATA_SEED.as_slice()));
    seeds.push(to_vec(wallet.bytes.as_slice()));
    assert(seed_bytes(seeds@) =~= wallet_data_seeds(wallet));
    seeds
}

/// Builds the seeds of a transaction session.
pub fn session_seed_list(wallet: Pubkey, nonce: u64) -> (seeds: Vec<Vec<u8>>)
    ensures
        seed_bytes(seeds@) == session_seeds(wallet, nonce),
{
    let mut seeds: Vec<Vec<u8>> = Vec::new();
    seeds.push(to_vec(TRANSACTION_SESSION_SEED.as_slice()));
    seeds.push(to_vec(wallet.bytes.as_slice()));
    seeds.push(seed_of_u64(nonce));
    assert(seed_bytes(seeds@) =~= session_seeds(wallet, nonce));
    seeds
}

/// The signer that stands for the device of `passkey` on `wallet`: the
/// authority a policy program sees.
pub fn get_pda_signer(passkey: &[u8; 33], wallet: Pubkey, bump: u8) -> (signer: PdaSigner)
    ensures
        signer@ == (PdaSignerView { seeds: device_seeds(passkey@, wallet), bump }),
{
    PdaSigner { seeds: device_seed_list(passkey, wallet), bump }
}

/// The signer that stands for the wallet itself.
pub fn get_wallet_signer(wallet_id: u64, bump: u8) -> (signer: PdaSigner)
    ensures
        signer@ == (PdaSignerView { seeds: wallet_seeds(wallet_id), bump }),
{
    PdaSigner { seeds: wallet_seed_list(wallet_id), bump }
}

/// Address and bump seed of the wallet with identifier `wallet_id`.
pub fn smart_wallet_address(wallet_id: u64) -> (r: Option<(Pubkey, u8)>)
    ensures
        r == program_address(wallet_seeds(wallet_id), program_id()),
{
    let seeds = wallet_seed_list(wallet_id);
    let id = program_id();
    derive_address(&seeds, &id)
}

/// Address and bump seed of the device record of `passkey` on `wallet`.
pub fn wallet_device_address(passkey: &[u8; 33], wallet: Pubkey) -> (r: Option<(Pubkey, u8)>)
    ensures
        r == program_address(device_seeds(passkey@, wallet), program_id()),
{
    let seeds = device_seed_list(passkey, wallet);
    let id = program_id();
    derive_address(&seeds, &id)
}

/// Address and bump seed of the data record of `wallet`.
pub fn smart_wallet_data_address(wallet: Pubkey) -> (r: Option<(Pubkey, u8)>)
    ensures
        r == program_address(wallet_data_seeds(wallet), program_id()),
{
    let seeds = wallet_data_seed_list(wallet);
    let id = program_id();
    derive_address(&seeds, &id)
}

/// Address and bump seed of the session `wallet` opens with `nonce`.
pub fn transaction_session_address(wallet: Pubkey, nonce: u64) -> (r: Option<(Pubkey, u8)>)
    ensures
        r == program_address(session_seeds(wallet, nonce), program_id()),
{
    let seeds = session_seed_list(wallet, nonce);
    let id = program_id();
    derive_address(&seeds, &id)
}

} // verus!
