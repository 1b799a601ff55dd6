//! Instructions the engine asks the runtime to invoke, and movements of
//! lamports out of accounts the engine owns.

use vstd::prelude::*;
use crate::account::{AccountInfo, AccountMeta, Instruction, InstructionView};
use crate::bytes::append;
use crate::error::{EngineError, LazorKitError, ProgramFault, ILLEGAL_OWNER};
use crate::pda::{derive_address, program_address, seed_bytes, PdaSigner, PdaSignerView};
use crate::pubkey::{program_id, Pubkey};

verus! {

/// An instruction to invoke, with the seeds the engine signs it with.
#[derive(Clone, Debug)]
pub struct Invocation {
    pub instruction: Instruction,
    /// Seeds of the signing address, the bump seed last.
    pub signer_seeds: Vec<Vec<u8>>,
}

/// Mathematical content of an [`Invocation`].
pub struct InvocationView {
    pub instruction: InstructionView,
    pub signer_seeds: Seq<Seq<u8>>,
}

impl View for Invocation {
    type V = InvocationView;

    open spec fn view(&self) -> InvocationView {
        InvocationView {
            instruction: self.instruction@,
            signer_seeds: seed_bytes(self.signer_seeds@),
        }
    }
}

/// How an account is named in an invoked instruction: it signs where it
/// is the engine's signing address or one of the outer signers let
/// through, and is writable where the transaction lets it be.
pub open spec fn cpi_account_meta(
    account: AccountInfo,
    pda: Pubkey,
    allowed_signers: Seq<Pubkey>,
) -> AccountMeta {
    AccountMeta {
        pubkey: account.key,
        is_signer: account.key == pda || allowed_signers.contains(account.key),
        is_writable: account.is_writable,
    }
}

/// The instruction that forwards `accounts` and `data` to `program`.
pub open spec fn cpi_instruction_spec(
    accounts: Seq<AccountInfo>,
    data: Seq<u8>,
    program: Pubkey,
    pda: Pubkey,
    allowed_signers: Seq<Pubkey>,
) -> InstructionView {
    InstructionView {
        program_id: program,
        accounts: Seq::new(
            accounts.len(),
            |i: int| cpi_account_meta(accounts[i], pda, allowed_signers),
        ),
        data,
    }
}

fn key_in(keys: &[Pubkey], key: &Pubkey) -> (r: bool)
    ensures
        r == keys@.contains(*key),
{
    let mut i: usize = 0;
    while i < keys.len()
        invariant
            i <= keys@.len(),
            forall|j: int| 0 <= j < i ==> keys@[j] != *key,
        decreases keys@.len() - i,
    {
        proof {
            Pubkey::lemma_view_injective(keys@[i as int], *key);
        }
        if keys[i] == *key {
            return true;
        }
        i += 1;
    }
    false
}

/// Builds the instruction that forwards `accounts` and `data` to
/// `program`, with `pda_pubkey` as the engine's signing address.
pub fn create_cpi_instruction(
    accounts: &[AccountInfo],
    data: Vec<u8>,
    program: &AccountInfo,
    pda_pubkey: &Pubkey,
    allowed_signers: &[Pubkey],
) -> (ix: Instruction)
    ensures
        ix@ == cpi_instruction_spec(
            accounts@,
            data@,
            program.key,
            *pda_pubkey,
            allowed_signers@,
        ),
{
    let mut metas: Vec<AccountMeta> = Vec::new();
    let mut i: usize = 0;
    while i < accounts.len()
        invariant
            i <= accounts@.len(),
            metas@.len() == i,
            forall|j: int|
                0 <= j < i ==> metas@[j] == cpi_account_meta(
                    accounts@[j],
                    *pda_pubkey,
                    allowed_signers@,
                ),
        decreases accounts@.len() - i,
    {
        let acc = &accounts[i];
        proof {
            Pubkey::lemma_view_injective(acc.key, *pda_pubkey);
        }
        let is_pda_signer = acc.key == *pda_pubkey;
        let is_allowed_outer = key_in(allowed_signers, &acc.key);
        metas.push(
            AccountMeta {
                pubkey: acc.key,
                is_signer: is_pda_signer || is_allowed_outer,
                is_writable: acc.is_writable,
            },
        );
        i += 1;
    }
    let ix = Instruction { program_id: program.key, accounts: metas, data };
    assert(ix@.accounts =~= cpi_instruction_spec(
        accounts@,
        data@,
        program.key,
        *pda_pubkey,
        allowed_signers@,
    ).accounts);
    ix
}

/// The seeds an invocation is signed with: those of the signer, then
/// its bump seed.
pub open spec fn signer_seeds_spec(signer: PdaSignerView) -> Seq<Seq<u8>> {
    signer.seeds.push(seq![signer.bump])
}

/// The invocation that forwards `accounts` and `data` to `program`,
/// signed for the address of `signer`. It is refused where the target
/// is this program itself, and where the signer's seeds derive no
/// address under this program.
pub open spec fn prepare_cpi_spec(
    accounts: Seq<AccountInfo>,
    data: Seq<u8>,
    program: Pubkey,
    signer: PdaSignerView,
    allowed_signers: Seq<Pubkey>,
) -> Result<InvocationView, LazorKitError> {
    if program == program_id() {
        Err(LazorKitError::ReentrancyDetected)
    } else {
        match program_address(signer.seeds, program_id()) {
            None => Err(LazorKitError::InvalidPDADerivation),
            Some((pda, _)) => Ok(
                InvocationView {
                    instruction: cpi_instruction_spec(
                        accounts,
                        data,
                        program,
                        pda,
                        allowed_signers,
                    ),
                    signer_seeds: signer_seeds_spec(signer),
                },
            ),
        }
    }
}

/// The view of a result that holds an [`Invocation`].
pub open spec fn invocation_result(r: Result<Invocation, LazorKitError>) -> Result<
    InvocationView,
    LazorKitError,
> {
    match r {
        Ok(call) => Ok(call@),
        Err(e) => Err(e),
    }
}

/// Prepares the invocation of `program` with `accounts` and `data`,
/// signed for the address of `signer`.
pub fn prepare_cpi(
    accounts: &[AccountInfo],
    data: &[u8],
    program: &AccountInfo,
    signer: PdaSigner,
    allowed_signers: &[Pubkey],
) -> (r: Result<Invocation, LazorKitError>)
    ensures
        invocation_result(r) == prepare_cpi_spec(
            accounts@,
            data@,
            program.key,
            signer@,
            allowed_signers@,
        ),
{
    let id = program_id();
    proof {
        Pubkey::lemma_view_injective(program.key, id);
    }
    if program.key == id {
        return Err(LazorKitError::ReentrancyDetected);
    }
    let pda = match derive_address(&signer.seeds, &id) {
        None => {
            return Err(LazorKitError::InvalidPDADerivation);
        },
        Some((pda, _)) => pda,
    };
    let mut owned: Vec<u8> = Vec::new();
    append(&mut owned, data);
    assert(owned@ =~= data@);
    let instruction = create_cpi_instruction(accounts, owned, program, &pda, allowed_signers);
    let ghost before = signer@;
    let bump = signer.bump;
    let mut signer_seeds = signer.seeds;
    let mut bump_seed: Vec<u8> = Vec::new();
    bump_seed.push(bump);
    signer_seeds.push(bump_seed);
    assert(seed_bytes(signer_seeds@) =~= signer_seeds_spec(before));
    Ok(Invocation { instruction, signer_seeds })
}

/// Outcome of moving `amount` lamports from an account with balance
/// `from_lamports`, owned by `from_owner`, to one with balance
/// `to_lamports`: the two new balances, or the reason for refusing.
/// Moving nothing always succeeds and changes nothing. An account that
/// this program does not own is refused with the fault by which the
/// runtime itself reports such an attempt.
pub open spec fn transfer_spec(
    from_owner: Pubkey,
    from_lamports: u64,
    to_lamports: u64,
    amount: u64,
) -> Result<(u64, u64), EngineError> {
    if amount == 0 {
        Ok((from_lamports, to_lamports))
    } else if from_owner != program_id() {
        Err(EngineError::Program(ProgramFault { code: ILLEGAL_OWNER }))
    } else if from_lamports < amount {
        Err(EngineError::Wallet(LazorKitError::InsufficientLamports))
    } else if to_lamports + amount > u64::MAX {
        Err(EngineError::Wallet(LazorKitError::IntegerOverflow))
    } else {
        Ok(((from_lamports - amount) as u64, (to_lamports + amount) as u64))
    }
}

/// Moves `amount` lamports from `from`, which this program must own, to
/// `to`. On failure neither account changes.
pub fn transfer_sol_from_pda(from: &mut AccountInfo, to: &mut AccountInfo, amount: u64) -> (r:
    Result<(), EngineError>)
    ensures
        match transfer_spec(old(from).owner, old(from).lamports, old(to).lamports, amount) {
            Ok((from_lamports, to_lamports)) => {
                &&& r is Ok
                &&& *final(from) == (AccountInfo { lamports: from_lamports, ..*old(from) })
                &&& *final(to) == (AccountInfo { lamports: to_lamports, ..*old(to) })
            },
            Err(e) => r == Err::<(), EngineError>(e) && *final(from) == *old(from) && *final(to)
                == *old(to),
        },
{
    if amount == 0 {
        return Ok(());
    }
    let id = program_id();
    proof {
        Pubkey::lemma_view_injective(from.owner, id);
    }
    if from.owner != id {
        return Err(EngineError::Program(ProgramFault { code: ILLEGAL_OWNER }));
    }
    if from.lamports < amount {
        return Err(EngineError::Wallet(LazorKitError::InsufficientLamports));
    }
    let credited = match to.lamports.checked_add(amount) {
        None => {
            return Err(EngineError::Wallet(LazorKitError::IntegerOverflow));
        },
        Some(v) => v,
    };
    from.lamports = from.lamports - amount;
    to.lamports = credited;
    Ok(())
}

/// The accounts from `start` on, `len` of them.
pub fn get_account_slice(accounts: &[AccountInfo], start: u8, len: u8) -> (r: Result<
    &[AccountInfo],
    LazorKitError,
>)
    ensures
        match r {
            Ok(slice) => start + len <= accounts@.len() && slice@ == accounts@.subrange(
                start as int,
                start + len,
            ),
            Err(e) => start + len > accounts@.len() && e == LazorKitError::AccountSliceOutOfBounds,
        },
{
    let begin: usize = start as usize;
    let end: usize = begin + len as usize;
    if end > accounts.len() {
        return Err(LazorKitError::AccountSliceOutOfBounds);
    }
    Ok(vstd::slice::slice_subrange(accounts, begin, end))
}

/// The first `split_index` accounts and the rest.
pub fn split_remaining_accounts(accounts: &[AccountInfo], split_index: u16) -> (r: Result<
    (&[AccountInfo], &[AccountInfo]),
    LazorKitError,
>)
    ensures
        match r {
            Ok((head, tail)) => {
                &&& split_index <= accounts@.len()
                &&& head@ == accounts@.subrange(0, split_index as int)
                &&& tail@ == accounts@.subrange(split_index as int, accounts@.len() as int)
            },
            Err(e) => split_index > accounts@.len() && e == LazorKitError::AccountSliceOutOfBounds,
        },
{
    let idx: usize = split_index as usize;
    if idx > accounts.len() {
        return Err(LazorKitError::AccountSliceOutOfBounds);
    }
    Ok(
        (
            vstd::slice::slice_subrange(accounts, 0, idx),
            vstd::slice::slice_subrange(accounts, idx, accounts.len()),
        ),
    )
}

} // verus!
