//! Authorization of an action by a passkey signature.
//!
//! An action is authorised when the device record matches the claimed
//! passkey and wallet, the transaction holds a verification record of
//! the precompile for the passkey, the signature and the signed message
//! `authenticatorData ‖ SHA-256(clientDataJSON)`, and the challenge
//! inside `clientDataJSON` decodes to a message that is fresh and
//! carries the wallet's nonce.

use vstd::prelude::*;
use crate::account::{AccountMeta, Instruction, InstructionView, InstructionsSysvar};
use crate::bytes::{append, array_of, lemma_array_of, slice_eq};
use crate::client_data::{challenge_bytes_spec, parse_challenge};
use crate::error::{EngineError, LazorKitError, ProgramFault};
use crate::hash::{hash, sha256_digest};
use crate::message::{check_header, check_header_spec, Message};
use crate::pubkey::Pubkey;
use crate::secp256r1::{verify_secp256r1_instruction, verify_secp256r1_spec};
use crate::state::WalletDevice;

verus! {

/// The message the authenticator signs.
pub open spec fn signed_message(authenticator_data: Seq<u8>, client_data_json: Seq<u8>) -> Seq<u8> {
    authenticator_data + sha256_digest(client_data_json)
}

/// What the runtime finds at an index of the transaction, read from the
/// data of the instructions sysvar at the address `key`: the program,
/// the accounts with their signer and writable flags, and the data of
/// the instruction there, or the code of the error it reports.
pub uninterp spec fn sysvar_instruction(key: Seq<u8>, data: Seq<u8>, index: nat) -> Result<
    (Seq<u8>, Seq<(Seq<u8>, bool, bool)>, Seq<u8>),
    u64,
>;

/// Calls `load_instruction_at_checked` of the instructions sysvar on an
/// account made of the given address and data. Trusted: the outcome
/// depends on the address, the data and the index alone; the error is
/// given by its code as a program error.
#[verifier::external_body]
fn load_instruction_at_checked(sysvar: &InstructionsSysvar, index: usize) -> (r: Result<
    Instruction,
    ProgramFault,
>)
    ensures
        match r {
            Err(fault) => sysvar_instruction(sysvar.key@, sysvar.data@, index as nat) == Err::<
                (Seq<u8>, Seq<(Seq<u8>, bool, bool)>, Seq<u8>),
                u64,
            >(fault.code),
            Ok(ix) => sysvar_instruction(sysvar.key@, sysvar.data@, index as nat) == Ok::<
                (Seq<u8>, Seq<(Seq<u8>, bool, bool)>, Seq<u8>),
                u64,
            >((ix.program_id@, meta_fields(ix.accounts@), ix.data@)),
        },
{
    let key = anchor_lang::prelude::Pubkey::new_from_array(sysvar.key.bytes);
    let (mut lamports, mut data) = (0u64, sysvar.data.clone());
    let info = anchor_lang::prelude::AccountInfo::new(&key, false, false, &mut lamports, &mut data, &key, false, 0);
    match anchor_lang::solana_program::sysvar::instructions::load_instruction_at_checked(index, &info) {
        Err(e) => Err(ProgramFault { code: u64::from(e) }),
        Ok(ix) => Ok(Instruction {
            program_id: Pubkey { bytes: ix.program_id.to_bytes() },
            accounts: ix.accounts.iter().map(|m| AccountMeta { pubkey: Pubkey { bytes: m.pubkey.to_bytes() }, is_signer: m.is_signer, is_writable: m.is_writable }).collect(),
            data: ix.data,
        }),
    }
}

/// The address and the flags of each account of an instruction.
pub open spec fn meta_fields(accounts: Seq<AccountMeta>) -> Seq<(Seq<u8>, bool, bool)> {
    Seq::new(accounts.len(), |i: int| (accounts[i].pubkey@, accounts[i].is_signer, accounts[i].is_writable))
}

/// The accounts of an instruction, from their addresses and flags.
pub open spec fn metas_of(fields: Seq<(Seq<u8>, bool, bool)>) -> Seq<AccountMeta> {
    Seq::new(
        fields.len(),
        |i: int|
            AccountMeta {
                pubkey: Pubkey { bytes: array_of(fields[i].0) },
                is_signer: fields[i].1,
                is_writable: fields[i].2,
            },
    )
}

/// The instruction at `index` of the transaction, as the instructions
/// sysvar shows it, or the fault the runtime reports on looking it up.
pub open spec fn instruction_at(sysvar: InstructionsSysvar, index: u8) -> Result<
    InstructionView,
    ProgramFault,
> {
    match sysvar_instruction(sysvar.key@, sysvar.data@, index as nat) {
        Err(code) => Err(ProgramFault { code }),
        Ok((program_id, accounts, data)) => Ok(
            InstructionView {
                program_id: Pubkey { bytes: array_of(program_id) },
                accounts: metas_of(accounts),
                data,
            },
        ),
    }
}

/// The view of a result that holds an [`Instruction`].
pub open spec fn loaded_instruction(found: Result<Instruction, ProgramFault>) -> Result<
    InstructionView,
    ProgramFault,
> {
    match found {
        Ok(ix) => Ok(ix@),
        Err(fault) => Err(fault),
    }
}

/// Looks up the instruction at `index` of the transaction.
pub fn load_instruction(sysvar: &InstructionsSysvar, index: u8) -> (r: Result<
    Instruction,
    ProgramFault,
>)
    ensures
        loaded_instruction(r) == instruction_at(*sysvar, index),
{
    let r = load_instruction_at_checked(sysvar, index as usize);
    proof {
        if let Ok(ix) = &r {
            lemma_array_of::<32>(ix.program_id@);
            let fields = meta_fields(ix.accounts@);
            assert forall|i: int| 0 <= i < ix.accounts@.len() implies metas_of(fields)[i]
                == ix.accounts@[i] by {
                lemma_array_of::<32>(ix.accounts@[i].pubkey@);
            }
            assert(metas_of(fields) =~= ix.accounts@);
        }
    }
    r
}

/// Verdict on a request for authorization; the checks are made in the
/// order given, and the first that fails decides the error.
pub open spec fn verify_authorization_spec<M: Message>(
    verify_instruction: Result<InstructionView, ProgramFault>,
    device: WalletDevice,
    smart_wallet_key: Pubkey,
    passkey_pubkey: Seq<u8>,
    signature: Seq<u8>,
    client_data_json: Seq<u8>,
    authenticator_data: Seq<u8>,
    last_nonce: u64,
    now: i64,
) -> Result<M, EngineError> {
    if device.passkey_pubkey@ != passkey_pubkey {
        Err(EngineError::Wallet(LazorKitError::PasskeyMismatch))
    } else if device.smart_wallet != smart_wallet_key {
        Err(EngineError::Wallet(LazorKitError::SmartWalletMismatch))
    } else {
        match verify_instruction {
            Err(fault) => Err(EngineError::Program(fault)),
            Ok(ix) => match challenge_bytes_spec(client_data_json) {
                Err(e) => Err(EngineError::Wallet(e)),
                Ok(challenge) => match verify_secp256r1_spec(
                    ix,
                    device.passkey_pubkey@,
                    signed_message(authenticator_data, client_data_json),
                    signature,
                ) {
                    Err(e) => Err(EngineError::Wallet(e)),
                    Ok(_) => match M::decode(challenge) {
                        None => Err(
                            EngineError::Wallet(LazorKitError::ChallengeDeserializationError),
                        ),
                        Some(m) => match check_header_spec(m.spec_header(), last_nonce, now) {
                            Err(e) => Err(EngineError::Wallet(e)),
                            Ok(_) => Ok(m),
                        },
                    },
                },
            },
        }
    }
}

/// Verifies that the passkey of `device` authorised a message of type
/// `M`, and returns that message.
///
/// The verification record is looked up at `verify_instruction_index`
/// of the transaction that `ix_sysvar` shows; `now` is the runtime
/// clock.
pub fn verify_authorization<M: Message>(
    ix_sysvar: &InstructionsSysvar,
    device: &WalletDevice,
    smart_wallet_key: Pubkey,
    passkey_pubkey: [u8; 33],
    signature: &[u8],
    client_data_json_raw: &[u8],
    authenticator_data_raw: &[u8],
    verify_instruction_index: u8,
    last_nonce: u64,
    now: i64,
) -> (r: Result<M, EngineError>)
    ensures
        r == verify_authorization_spec::<M>(
            instruction_at(*ix_sysvar, verify_instruction_index),
            *device,
            smart_wallet_key,
            passkey_pubkey@,
            signature@,
            client_data_json_raw@,
            authenticator_data_raw@,
            last_nonce,
            now,
        ),
{
    if !slice_eq(device.passkey_pubkey.as_slice(), passkey_pubkey.as_slice()) {
        return Err(EngineError::Wallet(LazorKitError::PasskeyMismatch));
    }
    proof {
        Pubkey::lemma_view_injective(device.smart_wallet, smart_wallet_key);
    }
    if device.smart_wallet != smart_wallet_key {
        return Err(EngineError::Wallet(LazorKitError::SmartWalletMismatch));
    }
    let secp_ix = match load_instruction(ix_sysvar, verify_instruction_index) {
        Err(fault) => {
            return Err(EngineError::Program(fault));
        },
        Ok(ix) => ix,
    };
    let client_hash = hash(client_data_json_raw);
    let mut message: Vec<u8> = Vec::new();
    append(&mut message, authenticator_data_raw);
    append(&mut message, client_hash.as_slice());
    assert(message@ =~= signed_message(authenticator_data_raw@, client_data_json_raw@));
    let challenge_bytes = match parse_challenge(client_data_json_raw) {
        Err(e) => {
            return Err(EngineError::Wallet(e));
        },
        Ok(bytes) => bytes,
    };
    match verify_secp256r1_instruction(
        &secp_ix,
        &device.passkey_pubkey,
        message.as_slice(),
        signature,
    ) {
        Err(e) => {
            return Err(EngineError::Wallet(e));
        },
        Ok(_) => {},
    }
    let m = match M::deserialize(challenge_bytes.as_slice()) {
        None => {
            return Err(EngineError::Wallet(LazorKitError::ChallengeDeserializationError));
        },
        Some(m) => m,
    };
    match check_header(m.header(), last_nonce, now) {
        Err(e) => Err(EngineError::Wallet(e)),
        Ok(_) => Ok(m),
    }
}

} // verus!
