//! SHA-256 commitments: instruction data, account sets, entry-point
//! discriminators and passkey digests.

use vstd::prelude::*;
use vstd::utf8::encode_utf8;
use crate::account::AccountInfo;
use crate::bytes::append;
use crate::pubkey::Pubkey;

verus! {

/// Length of a passkey: a compressed P-256 point.
pub const PASSKEY_SIZE: usize = 33;

/// The SHA-256 digest of a byte string.
pub uninterp spec fn sha256_digest(data: Seq<u8>) -> Seq<u8>;

/// Calls `solana_program::hash::hash`, which computes SHA-256 over its
/// argument. Trusted: the result is the digest of exactly the bytes given,
/// and the same bytes always give the same 32-byte digest.
#[verifier::external_body]
pub(crate) fn hash(data: &[u8]) -> (digest: [u8; 32])
    ensures
        digest@ == sha256_digest(data@),
{
    anchor_lang::solana_program::hash::hash(data).to_bytes()
}

/// The bytes one account contributes to an accounts commitment: its
/// address, then one byte for `is_writable`, then one for `is_signer`.
pub open spec fn account_record(a: AccountInfo) -> Seq<u8> {
    a.key@ + seq![if a.is_writable { 1u8 } else { 0u8 }] + seq![if a.is_signer { 1u8 } else { 0u8 }]
}

/// The byte string an accounts commitment is computed over: the program
/// id followed by the record of each account in order.
pub open spec fn accounts_preimage(program_id: Pubkey, accounts: Seq<AccountInfo>) -> Seq<u8>
    decreases accounts.len(),
{
    if accounts.len() == 0 {
        program_id@
    } else {
        accounts_preimage(program_id, accounts.drop_last()) + account_record(accounts.last())
    }
}

/// Commitment to a program and an ordered account set.
pub open spec fn accounts_hash(program_id: Pubkey, accounts: Seq<AccountInfo>) -> Seq<u8> {
    sha256_digest(accounts_preimage(program_id, accounts))
}

/// The preimage has 32 bytes for the program and 34 for each account.
pub proof fn lemma_accounts_preimage_len(program_id: Pubkey, accounts: Seq<AccountInfo>)
    ensures
        accounts_preimage(program_id, accounts).len() == 32 + 34 * accounts.len(),
    decreases accounts.len(),
{
    if accounts.len() > 0 {
        lemma_accounts_preimage_len(program_id, accounts.drop_last());
    }
}

/// Two account sets with the same preimage name the same program and, in
/// the same order, accounts with the same address and flags.
pub proof fn lemma_accounts_preimage_injective(
    first_program: Pubkey,
    first: Seq<AccountInfo>,
    second_program: Pubkey,
    second: Seq<AccountInfo>,
)
    requires
        accounts_preimage(first_program, first) == accounts_preimage(second_program, second),
    ensures
        first_program == second_program,
        first.len() == second.len(),
        forall|i: int|
            0 <= i < first.len() ==> first[i].key == second[i].key && first[i].is_writable == second[i].is_writable
                && first[i].is_signer == second[i].is_signer,
    decreases first.len(),
{
    lemma_accounts_preimage_len(first_program, first);
    lemma_accounts_preimage_len(second_program, second);
    if first.len() == 0 {
        Pubkey::lemma_view_injective(first_program, second_program);
    } else {
        let head_first = accounts_preimage(first_program, first.drop_last());
        let head_second = accounts_preimage(second_program, second.drop_last());
        let record_first = account_record(first.last());
        let record_second = account_record(second.last());
        lemma_accounts_preimage_len(first_program, first.drop_last());
        lemma_accounts_preimage_len(second_program, second.drop_last());
        let whole = accounts_preimage(first_program, first);
        assert(head_first =~= whole.subrange(0, head_first.len() as int));
        assert(head_second =~= whole.subrange(0, head_second.len() as int));
        assert(record_first =~= whole.subrange(head_first.len() as int, whole.len() as int));
        assert(record_second =~= whole.subrange(head_second.len() as int, whole.len() as int));
        lemma_accounts_preimage_injective(first_program, first.drop_last(), second_program, second.drop_last());
        assert(first.last().key@ =~= record_first.subrange(0, 32));
        assert(second.last().key@ =~= record_second.subrange(0, 32));
        Pubkey::lemma_view_injective(first.last().key, second.last().key);
        assert(record_first[32] == record_second[32]);
        assert(record_first[33] == record_second[33]);
        assert forall|i: int| 0 <= i < first.len() implies first[i].key == second[i].key && first[i].is_writable
            == second[i].is_writable && first[i].is_signer == second[i].is_signer by {
            if i < first.len() - 1 {
                assert(first[i] == first.drop_last()[i]);
                assert(second[i] == second.drop_last()[i]);
            }
        }
    }
}

/// Computes the commitment to `program_id` and `accounts`.
pub fn hash_accounts(program_id: &Pubkey, accounts: &[AccountInfo]) -> (digest: [u8; 32])
    ensures
        digest@ == accounts_hash(*program_id, accounts@),
{
    let mut preimage: Vec<u8> = Vec::new();
    append(&mut preimage, program_id.bytes.as_slice());
    let mut i: usize = 0;
    assert(accounts@.take(0) =~= Seq::<AccountInfo>::empty());
    while i < accounts.len()
        invariant
            i <= accounts@.len(),
            preimage@ == accounts_preimage(*program_id, accounts@.take(i as int)),
        decreases accounts@.len() - i,
    {
        let a = &accounts[i];
        let ghost before = preimage@;
        append(&mut preimage, a.key.bytes.as_slice());
        preimage.push(if a.is_writable { 1u8 } else { 0u8 });
        preimage.push(if a.is_signer { 1u8 } else { 0u8 });
        proof {
            let next = accounts@.take(i + 1);
            assert(next.drop_last() =~= accounts@.take(i as int));
            assert(next.last() == accounts@[i as int]);
            assert(preimage@ =~= before + account_record(accounts@[i as int]));
        }
        i += 1;
    }
    assert(accounts@.take(i as int) =~= accounts@);
    hash(preimage.as_slice())
}

/// Discriminator of the entry point `name` in `namespace`: the first
/// eight bytes of the digest of `namespace:name`.
pub open spec fn sighash_spec(namespace: Seq<char>, name: Seq<char>) -> Seq<u8> {
    sha256_digest(encode_utf8(namespace) + seq![0x3au8] + encode_utf8(name)).subrange(0, 8)
}

/// Computes the discriminator of an entry point.
pub fn sighash(namespace: &str, name: &str) -> (out: [u8; 8])
    ensures
        out@ == sighash_spec(namespace@, name@),
{
    let mut preimage: Vec<u8> = Vec::new();
    append(&mut preimage, namespace.as_bytes());
    preimage.push(0x3au8);
    append(&mut preimage, name.as_bytes());
    assert(preimage@ =~= encode_utf8(namespace@) + seq![0x3au8] + encode_utf8(name@));
    let digest = hash(preimage.as_slice());
    let mut out: [u8; 8] = [0u8; 8];
    let mut i: usize = 0;
    while i < 8
        invariant
            i <= 8,
            forall|j: int| 0 <= j < i ==> out@[j] == digest@[j],
        decreases 8 - i,
    {
        out[i] = digest[i];
        i += 1;
    }
    assert(out@ =~= digest@.subrange(0, 8));
    out
}

/// Digest that stands for a passkey registered to a wallet:
/// SHA-256 of the passkey followed by the wallet address.
pub open spec fn passkey_hash(passkey: Seq<u8>, wallet: Pubkey) -> Seq<u8> {
    sha256_digest(passkey + wallet@)
}

/// Operations on a passkey.
pub trait PasskeyExt {
    /// The passkey's bytes.
    spec fn key_bytes(&self) -> Seq<u8>;

    /// Digest of the passkey bound to `wallet`.
    fn to_hashed_bytes(&self, wallet: Pubkey) -> (digest: [u8; 32])
        ensures
            digest@ == passkey_hash(self.key_bytes(), wallet),
    ;
}

impl PasskeyExt for [u8; 33] {
    open spec fn key_bytes(&self) -> Seq<u8> {
        self@
    }

    fn to_hashed_bytes(&self, wallet: Pubkey) -> (digest: [u8; 32]) {
        let mut buf: Vec<u8> = Vec::new();
        append(&mut buf, self.as_slice());
        append(&mut buf, wallet.bytes.as_slice());
        hash(buf.as_slice())
    }
}

} // verus!
