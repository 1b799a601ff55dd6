//! Checks on single inputs.

use vstd::prelude::*;
use crate::account::AccountInfo;
use crate::error::LazorKitError;
use crate::pda::{derive_address, program_address, seed_bytes};
use crate::pubkey::Pubkey;
use crate::security::{
    MAX_CPI_DATA_SIZE, MAX_CREDENTIAL_ID_SIZE, MAX_POLICY_DATA_SIZE, MAX_REMAINING_ACCOUNTS,
    MAX_TRANSACTION_AGE,
};

verus! {

/// A credential identifier holds between 1 and 256 bytes.
pub open spec fn validate_credential_id_spec(credential_id: Seq<u8>) -> Result<(), LazorKitError> {
    if credential_id.len() > MAX_CREDENTIAL_ID_SIZE {
        Err(LazorKitError::CredentialIdTooLarge)
    } else if credential_id.len() == 0 {
        Err(LazorKitError::CredentialIdEmpty)
    } else {
        Ok(())
    }
}

pub fn validate_credential_id(credential_id: &[u8]) -> (r: Result<(), LazorKitError>)
    ensures
        r == validate_credential_id_spec(credential_id@),
{
    if credential_id.len() > MAX_CREDENTIAL_ID_SIZE {
        return Err(LazorKitError::CredentialIdTooLarge);
    }
    if credential_id.len() == 0 {
        return Err(LazorKitError::CredentialIdEmpty);
    }
    Ok(())
}

/// Policy instruction data holds at most 1024 bytes.
pub open spec fn validate_policy_data_spec(policy_data: Seq<u8>) -> Result<(), LazorKitError> {
    if policy_data.len() > MAX_POLICY_DATA_SIZE {
        Err(LazorKitError::PolicyDataTooLarge)
    } else {
        Ok(())
    }
}

pub fn validate_policy_data(policy_data: &[u8]) -> (r: Result<(), LazorKitError>)
    ensures
        r == validate_policy_data_spec(policy_data@),
{
    if policy_data.len() > MAX_POLICY_DATA_SIZE {
        return Err(LazorKitError::PolicyDataTooLarge);
    }
    Ok(())
}

/// Instruction data for the target program holds between 1 and 1024
/// bytes.
pub open spec fn validate_cpi_data_spec(cpi_data: Seq<u8>) -> Result<(), LazorKitError> {
    if cpi_data.len() > MAX_CPI_DATA_SIZE {
        Err(LazorKitError::CpiDataTooLarge)
    } else if cpi_data.len() == 0 {
        Err(LazorKitError::CpiDataMissing)
    } else {
        Ok(())
    }
}

pub fn validate_cpi_data(cpi_data: &[u8]) -> (r: Result<(), LazorKitError>)
    ensures
        r == validate_cpi_data_spec(cpi_data@),
{
    if cpi_data.len() > MAX_CPI_DATA_SIZE {
        return Err(LazorKitError::CpiDataTooLarge);
    }
    if cpi_data.len() == 0 {
        return Err(LazorKitError::CpiDataMissing);
    }
    Ok(())
}

/// At most 32 accounts follow the fixed ones.
pub open spec fn validate_remaining_accounts_spec(count: nat) -> Result<(), LazorKitError> {
    if count > MAX_REMAINING_ACCOUNTS {
        Err(LazorKitError::TooManyRemainingAccounts)
    } else {
        Ok(())
    }
}

pub fn validate_remaining_accounts(accounts: &[AccountInfo]) -> (r: Result<(), LazorKitError>)
    ensures
        r == validate_remaining_accounts_spec(accounts@.len()),
{
    if accounts.len() > MAX_REMAINING_ACCOUNTS {
        return Err(LazorKitError::TooManyRemainingAccounts);
    }
    Ok(())
}

/// An amount is at most half of the largest balance, so that sums of
/// two amounts cannot overflow.
pub open spec fn validate_lamport_amount_spec(amount: u64) -> Result<(), LazorKitError> {
    if amount > u64::MAX / 2 {
        Err(LazorKitError::TransferAmountOverflow)
    } else {
        Ok(())
    }
}

pub fn validate_lamport_amount(amount: u64) -> (r: Result<(), LazorKitError>)
    ensures
        r == validate_lamport_amount_spec(amount),
{
    if amount > u64::MAX / 2 {
        return Err(LazorKitError::TransferAmountOverflow);
    }
    Ok(())
}

/// A program account must be executable.
pub open spec fn validate_program_executable_spec(program: AccountInfo) -> Result<
    (),
    LazorKitError,
> {
    if program.executable {
        Ok(())
    } else {
        Err(LazorKitError::ProgramNotExecutable)
    }
}

pub fn validate_program_executable(program: &AccountInfo) -> (r: Result<(), LazorKitError>)
    ensures
        r == validate_program_executable_spec(*program),
{
    if !program.executable {
        return Err(LazorKitError::ProgramNotExecutable);
    }
    Ok(())
}

/// An account must be owned by the expected program.
pub open spec fn validate_account_owner_spec(account: AccountInfo, expected_owner: Pubkey) -> Result<
    (),
    LazorKitError,
> {
    if account.owner == expected_owner {
        Ok(())
    } else {
        Err(LazorKitError::InvalidAccountOwner)
    }
}

pub fn validate_account_owner(account: &AccountInfo, expected_owner: &Pubkey) -> (r: Result<
    (),
    LazorKitError,
>)
    ensures
        r == validate_account_owner_spec(*account, *expected_owner),
{
    proof {
        Pubkey::lemma_view_injective(account.owner, *expected_owner);
    }
    if account.owner != *expected_owner {
        return Err(LazorKitError::InvalidAccountOwner);
    }
    Ok(())
}

/// Verdict on an account offered as the address derived from `seeds`
/// under `program_id`, with the bump seed `bump`. `derived` is the
/// address and bump that the seeds give, if they give any.
pub open spec fn check_derived_address(
    account_key: Pubkey,
    bump: u8,
    derived: Option<(Pubkey, u8)>,
) -> Result<(), LazorKitError> {
    match derived {
        None => Err(LazorKitError::InvalidPDADerivation),
        Some((key, expected_bump)) => if account_key != key {
            Err(LazorKitError::InvalidPDADerivation)
        } else if bump != expected_bump {
            Err(LazorKitError::InvalidBumpSeed)
        } else {
            Ok(())
        },
    }
}

/// Compares an account's address and bump seed with a derived address.
pub fn validate_derived_address(account_key: &Pubkey, bump: u8, derived: Option<(Pubkey, u8)>) -> (r:
    Result<(), LazorKitError>)
    ensures
        r == check_derived_address(*account_key, bump, derived),
{
    match derived {
        None => Err(LazorKitError::InvalidPDADerivation),
        Some((key, expected_bump)) => {
            proof {
                Pubkey::lemma_view_injective(*account_key, key);
            }
            if *account_key != key {
                Err(LazorKitError::InvalidPDADerivation)
            } else if bump != expected_bump {
                Err(LazorKitError::InvalidBumpSeed)
            } else {
                Ok(())
            }
        },
    }
}

/// Checks that `account` lies at the address derived from `seeds` under
/// `program_id` and that `bump` is the bump seed of that address.
pub fn validate_pda(account: &AccountInfo, seeds: &Vec<Vec<u8>>, program_id: &Pubkey, bump: u8) -> (r:
    Result<(), LazorKitError>)
    ensures
        r == check_derived_address(
            account.key,
            bump,
            program_address(seed_bytes(seeds@), *program_id),
        ),
{
    validate_derived_address(&account.key, bump, derive_address(seeds, program_id))
}

/// A timestamp must not lie in the future, nor more than 300 seconds in
/// the past.
pub open spec fn validate_timestamp_spec(timestamp: i64, current_time: i64) -> Result<
    (),
    LazorKitError,
> {
    if 0 <= current_time - timestamp <= MAX_TRANSACTION_AGE {
        Ok(())
    } else {
        Err(LazorKitError::TransactionTooOld)
    }
}

pub fn validate_timestamp(timestamp: i64, current_time: i64) -> (r: Result<(), LazorKitError>)
    ensures
        r == validate_timestamp_spec(timestamp, current_time),
{
    let age: i128 = current_time as i128 - timestamp as i128;
    if age < 0 || age > MAX_TRANSACTION_AGE as i128 {
        return Err(LazorKitError::TransactionTooOld);
    }
    Ok(())
}

} // verus!
