//! Checks and effects that several entry points share: bindings, the
//! branch between a native transfer and an invocation, the bookkeeping
//! after an action, and the enrolment of a device.

use vstd::prelude::*;
use crate::account::AccountInfo;
use crate::bytes::{has_prefix, le_value, read_u64_le, slice_eq, starts_with, to_vec};
use crate::cpi::{
    prepare_cpi, prepare_cpi_spec, transfer_sol_from_pda, transfer_spec,
    Invocation, InvocationView,
};
use crate::error::{EngineError, LazorKitError, ProgramFault};
use crate::hash::{accounts_hash, hash, hash_accounts, sha256_digest, sighash, sighash_spec};
use crate::instructions::args::{has_passkey_format, is_compressed_point, NewAuthenticatorArgs};
use crate::pda::{
    device_seed_list, device_seeds, derive_address, get_wallet_signer, program_address,
    wallet_seeds, PdaSignerView,
};
use crate::pubkey::{program_id, system_program_id, Pubkey};
use crate::security::MAX_CREDENTIAL_ID_SIZE;
use crate::state::{SmartWalletData, WalletDevice};

verus! {

/// First bytes of the data of a native transfer of the system program.
pub const SOL_TRANSFER_DISCRIMINATOR: [u8; 4] = [2, 0, 0, 0];

/// Bytes a device record takes up, with its type discriminator.
pub const WALLET_DEVICE_SPACE: u64 = 334;

/// Verdict on instruction data against the digest a challenge carries.
pub open spec fn check_data_hash_spec(data: Seq<u8>, expected: Seq<u8>) -> Result<
    (),
    LazorKitError,
> {
    if sha256_digest(data) == expected {
        Ok(())
    } else {
        Err(LazorKitError::InvalidInstructionData)
    }
}

/// Compares the digest of `data` with the one a challenge carries.
pub fn check_data_hash(data: &[u8], expected: &[u8; 32]) -> (r: Result<(), LazorKitError>)
    ensures
        r == check_data_hash_spec(data@, expected@),
{
    let digest = hash(data);
    if slice_eq(digest.as_slice(), expected.as_slice()) {
        Ok(())
    } else {
        Err(LazorKitError::InvalidInstructionData)
    }
}

/// Verdict on a program and its accounts against the commitment a
/// challenge carries.
pub open spec fn check_accounts_hash_spec(
    program: Pubkey,
    accounts: Seq<AccountInfo>,
    expected: Seq<u8>,
) -> Result<(), LazorKitError> {
    if accounts_hash(program, accounts) == expected {
        Ok(())
    } else {
        Err(LazorKitError::InvalidAccountData)
    }
}

/// Compares the commitment to `program` and `accounts` with the one a
/// challenge carries.
pub fn check_accounts_hash(program: &Pubkey, accounts: &[AccountInfo], expected: &[u8; 32]) -> (r:
    Result<(), LazorKitError>)
    ensures
        r == check_accounts_hash_spec(*program, accounts@, expected@),
{
    let digest = hash_accounts(program, accounts);
    if slice_eq(digest.as_slice(), expected.as_slice()) {
        Ok(())
    } else {
        Err(LazorKitError::InvalidAccountData)
    }
}

/// `data` starts with the discriminator of the entry point `name`.
pub open spec fn has_discriminator(data: Seq<u8>, name: Seq<char>) -> bool {
    has_prefix(data, sighash_spec("global"@, name))
}

/// Tests whether `data` starts with the discriminator of `name`.
pub fn check_discriminator(data: &[u8], name: &str) -> (r: bool)
    ensures
        r == has_discriminator(data@, name@),
{
    let expected = sighash("global", name);
    starts_with(data, expected.as_slice())
}

/// What the engine does on a wallet's behalf once an action is cleared.
#[derive(Clone, Debug)]
pub enum WalletAction {
    /// Lamports move from the wallet to the remaining account at
    /// `destination`.
    Transfer { destination: usize, amount: u64 },
    /// The target program is invoked, signed for the wallet.
    Invoke(Invocation),
}

/// Mathematical content of a [`WalletAction`].
pub enum WalletActionView {
    Transfer { destination: usize, amount: u64 },
    Invoke(InvocationView),
}

impl View for WalletAction {
    type V = WalletActionView;

    open spec fn view(&self) -> WalletActionView {
        match self {
            WalletAction::Transfer { destination, amount } => WalletActionView::Transfer {
                destination: *destination,
                amount: *amount,
            },
            WalletAction::Invoke(call) => WalletActionView::Invoke(call@),
        }
    }
}

/// The instruction is a native transfer: it is meant for the system
/// program and starts with the transfer discriminator.
pub open spec fn is_native_transfer(cpi_data: Seq<u8>, cpi_program: Pubkey) -> bool {
    has_prefix(cpi_data, SOL_TRANSFER_DISCRIMINATOR@) && cpi_program == system_program_id()
}

/// The amount a native transfer names: eight little-endian bytes after
/// the discriminator.
pub open spec fn transfer_amount(cpi_data: Seq<u8>) -> nat
    recommends
        cpi_data.len() >= 12,
{
    le_value(cpi_data.subrange(4, 12))
}

/// A cleared action and the balances it leaves.
pub struct Dispatch {
    pub action: WalletActionView,
    /// The wallet after the action.
    pub smart_wallet: AccountInfo,
    /// The remaining accounts after the action.
    pub remaining_accounts: Seq<AccountInfo>,
}

/// Verdict on a native transfer out of `smart_wallet`, with the amount
/// to move: the instruction must name two accounts and a positive
/// amount, the destination must not be the wallet, and the wallet must
/// keep the fee and the rent-exempt minimum after paying.
pub open spec fn check_transfer_spec(
    smart_wallet: AccountInfo,
    execute_fee: u64,
    cpi_accounts: Seq<AccountInfo>,
    cpi_data: Seq<u8>,
    rent_exempt_minimum: u64,
) -> Result<u64, LazorKitError> {
    if cpi_accounts.len() < 2 {
        Err(LazorKitError::SolTransferInsufficientAccounts)
    } else if cpi_data.len() < 12 {
        Err(LazorKitError::InvalidCpiData)
    } else if transfer_amount(cpi_data) == 0 {
        Err(LazorKitError::InvalidTransferAmount)
    } else if cpi_accounts[1].key == smart_wallet.key {
        Err(LazorKitError::InvalidAccountData)
    } else if transfer_amount(cpi_data) + execute_fee + rent_exempt_minimum > u64::MAX {
        Err(LazorKitError::IntegerOverflow)
    } else if smart_wallet.lamports < transfer_amount(cpi_data) + execute_fee
        + rent_exempt_minimum {
        Err(LazorKitError::InsufficientLamports)
    } else {
        Ok(transfer_amount(cpi_data) as u64)
    }
}

/// Verdict on the invocation of a target program for the wallet: the
/// program must be executable and must not be this program, and at
/// least one account must be handed on.
pub open spec fn check_invocation_spec(
    wallet_data: SmartWalletData,
    payer: Pubkey,
    cpi_program: AccountInfo,
    cpi_accounts: Seq<AccountInfo>,
    cpi_data: Seq<u8>,
) -> Result<InvocationView, LazorKitError> {
    if !cpi_program.executable {
        Err(LazorKitError::ProgramNotExecutable)
    } else if cpi_program.key == program_id() {
        Err(LazorKitError::ReentrancyDetected)
    } else if cpi_accounts.len() == 0 {
        Err(LazorKitError::InsufficientCpiAccounts)
    } else {
        prepare_cpi_spec(
            cpi_accounts,
            cpi_data,
            cpi_program.key,
            PdaSignerView { seeds: wallet_seeds(wallet_data.id), bump: wallet_data.bump },
            seq![payer],
        )
    }
}

/// What a cleared action does: a native transfer moves lamports from
/// the wallet to the second of its accounts, anything else becomes an
/// invocation signed for the wallet and changes no balance. The
/// accounts of the action are the remaining accounts from `first` on,
/// and `first` must not lie beyond them.
pub open spec fn dispatch_spec(
    smart_wallet: AccountInfo,
    wallet_data: SmartWalletData,
    execute_fee: u64,
    payer: Pubkey,
    cpi_program: AccountInfo,
    remaining_accounts: Seq<AccountInfo>,
    first: int,
    cpi_data: Seq<u8>,
    rent_exempt_minimum: u64,
) -> Result<Dispatch, EngineError> {
    let cpi_accounts = remaining_accounts.subrange(first, remaining_accounts.len() as int);
    if first < 0 || first > remaining_accounts.len() {
        Err(EngineError::Wallet(LazorKitError::AccountSliceOutOfBounds))
    } else if is_native_transfer(cpi_data, cpi_program.key) {
        match check_transfer_spec(
            smart_wallet,
            execute_fee,
            cpi_accounts,
            cpi_data,
            rent_exempt_minimum,
        ) {
            Err(e) => Err(EngineError::Wallet(e)),
            Ok(amount) => match transfer_spec(
                smart_wallet.owner,
                smart_wallet.lamports,
                cpi_accounts[1].lamports,
                amount,
            ) {
                Err(e) => Err(e),
                Ok((wallet_lamports, destination_lamports)) => Ok(
                    Dispatch {
                        action: WalletActionView::Transfer {
                            destination: (first + 1) as usize,
                            amount,
                        },
                        smart_wallet: AccountInfo { lamports: wallet_lamports, ..smart_wallet },
                        remaining_accounts: remaining_accounts.update(
                            first + 1,
                            AccountInfo { lamports: destination_lamports, ..cpi_accounts[1] },
                        ),
                    },
                ),
            },
        }
    } else {
        match check_invocation_spec(wallet_data, payer, cpi_program, cpi_accounts, cpi_data) {
            Err(e) => Err(EngineError::Wallet(e)),
            Ok(call) => Ok(
                Dispatch { action: WalletActionView::Invoke(call), smart_wallet, remaining_accounts },
            ),
        }
    }
}

/// Clears the action a wallet was authorised for and applies what it
/// does to balances. On failure nothing changes.
pub fn dispatch_wallet_action(
    smart_wallet: &mut AccountInfo,
    wallet_data: &SmartWalletData,
    execute_fee: u64,
    payer: &Pubkey,
    cpi_program: &AccountInfo,
    remaining_accounts: &mut Vec<AccountInfo>,
    first: usize,
    cpi_data: &[u8],
    rent_exempt_minimum: u64,
) -> (r: Result<WalletAction, EngineError>)
    ensures
        match dispatch_spec(
            *old(smart_wallet),
            *wallet_data,
            execute_fee,
            *payer,
            *cpi_program,
            old(remaining_accounts)@,
            first as int,
            cpi_data@,
            rent_exempt_minimum,
        ) {
            Ok(d) => {
                &&& r matches Ok(action)
                &&& action@ == d.action
                &&& *final(smart_wallet) == d.smart_wallet
                &&& final(remaining_accounts)@ == d.remaining_accounts
            },
            Err(e) => {
                &&& r matches Err(got)
                &&& got == e
                &&& *final(smart_wallet) == *old(smart_wallet)
                &&& final(remaining_accounts)@ == old(remaining_accounts)@
            },
        },
{
    let total: usize = remaining_accounts.len();
    if first > total {
        return Err(EngineError::Wallet(LazorKitError::AccountSliceOutOfBounds));
    }
    let system = system_program_id();
    let this_program = program_id();
    proof {
        Pubkey::lemma_view_injective(cpi_program.key, system);
        Pubkey::lemma_view_injective(cpi_program.key, this_program);
    }
    let ghost cpi_accounts = remaining_accounts@.subrange(first as int, total as int);
    if starts_with(cpi_data, SOL_TRANSFER_DISCRIMINATOR.as_slice()) && cpi_program.key == system {
        if total - first < 2 {
            return Err(EngineError::Wallet(LazorKitError::SolTransferInsufficientAccounts));
        }
        if cpi_data.len() < 12 {
            return Err(EngineError::Wallet(LazorKitError::InvalidCpiData));
        }
        let amount = read_u64_le(cpi_data, 4);
        if amount == 0 {
            return Err(EngineError::Wallet(LazorKitError::InvalidTransferAmount));
        }
        let mut destination: AccountInfo = remaining_accounts[first + 1];
        assert(destination == cpi_accounts[1]);
        proof {
            Pubkey::lemma_view_injective(destination.key, smart_wallet.key);
        }
        if destination.key == smart_wallet.key {
            return Err(EngineError::Wallet(LazorKitError::InvalidAccountData));
        }
        let with_fee = match amount.checked_add(execute_fee) {
            None => {
                return Err(EngineError::Wallet(LazorKitError::IntegerOverflow));
            },
            Some(v) => v,
        };
        let total_needed = match with_fee.checked_add(rent_exempt_minimum) {
            None => {
                return Err(EngineError::Wallet(LazorKitError::IntegerOverflow));
            },
            Some(v) => v,
        };
        if smart_wallet.lamports < total_needed {
            return Err(EngineError::Wallet(LazorKitError::InsufficientLamports));
        }
        match transfer_sol_from_pda(smart_wallet, &mut destination, amount) {
            Err(e) => {
                return Err(e);
            },
            Ok(_) => {},
        }
        remaining_accounts.set(first + 1, destination);
        Ok(WalletAction::Transfer { destination: first + 1, amount })
    } else {
        if !cpi_program.executable {
            return Err(EngineError::Wallet(LazorKitError::ProgramNotExecutable));
        }
        if cpi_program.key == this_program {
            return Err(EngineError::Wallet(LazorKitError::ReentrancyDetected));
        }
        if total - first == 0 {
            return Err(EngineError::Wallet(LazorKitError::InsufficientCpiAccounts));
        }
        let wallet_signer = get_wallet_signer(wallet_data.id, wallet_data.bump);
        let mut allowed: Vec<Pubkey> = Vec::new();
        allowed.push(*payer);
        assert(allowed@ =~= seq![*payer]);
        let accounts = vstd::slice::slice_subrange(remaining_accounts.as_slice(), first, total);
        match prepare_cpi(accounts, cpi_data, cpi_program, wallet_signer, allowed.as_slice()) {
            Err(e) => Err(EngineError::Wallet(e)),
            Ok(call) => Ok(WalletAction::Invoke(call)),
        }
    }
}

/// What is left of a wallet after an authorised action.
pub struct Settlement {
    pub wallet_data: SmartWalletData,
    pub smart_wallet: AccountInfo,
    pub payer: AccountInfo,
}

/// The bookkeeping after an authorised action: the nonce goes up by
/// one, and where a fee is set the wallet pays it to the payer and must
/// keep the rent-exempt minimum.
pub open spec fn settle_spec(
    wallet_data: SmartWalletData,
    smart_wallet: AccountInfo,
    payer: AccountInfo,
    execute_fee: u64,
    rent_exempt_minimum: u64,
) -> Result<Settlement, EngineError> {
    if wallet_data.last_nonce == u64::MAX {
        Err(EngineError::Wallet(LazorKitError::NonceOverflow))
    } else if execute_fee > 0 && smart_wallet.lamports < execute_fee + rent_exempt_minimum {
        Err(EngineError::Wallet(LazorKitError::InsufficientBalanceForFee))
    } else {
        match transfer_spec(smart_wallet.owner, smart_wallet.lamports, payer.lamports, execute_fee) {
            Err(e) => Err(e),
            Ok((wallet_lamports, payer_lamports)) => Ok(
                Settlement {
                    wallet_data: SmartWalletData {
                        last_nonce: (wallet_data.last_nonce + 1) as u64,
                        ..wallet_data
                    },
                    smart_wallet: AccountInfo { lamports: wallet_lamports, ..smart_wallet },
                    payer: AccountInfo { lamports: payer_lamports, ..payer },
                },
            ),
        }
    }
}

/// Applies the bookkeeping after an authorised action. On failure
/// nothing changes.
pub fn settle(
    wallet_data: &mut SmartWalletData,
    smart_wallet: &mut AccountInfo,
    payer: &mut AccountInfo,
    execute_fee: u64,
    rent_exempt_minimum: u64,
) -> (r: Result<(), EngineError>)
    ensures
        match settle_spec(
            *old(wallet_data),
            *old(smart_wallet),
            *old(payer),
            execute_fee,
            rent_exempt_minimum,
        ) {
            Ok(s) => {
                &&& r is Ok
                &&& *final(wallet_data) == s.wallet_data
                &&& *final(smart_wallet) == s.smart_wallet
                &&& *final(payer) == s.payer
            },
            Err(e) => {
                &&& r == Err::<(), EngineError>(e)
                &&& *final(wallet_data) == *old(wallet_data)
                &&& *final(smart_wallet) == *old(smart_wallet)
                &&& *final(payer) == *old(payer)
            },
        },
{
    let next_nonce = match wallet_data.last_nonce.checked_add(1) {
        None => {
            return Err(EngineError::Wallet(LazorKitError::NonceOverflow));
        },
        Some(v) => v,
    };
    if execute_fee > 0 {
        let enough = match execute_fee.checked_add(rent_exempt_minimum) {
            None => false,
            Some(needed) => smart_wallet.lamports >= needed,
        };
        if !enough {
            return Err(EngineError::Wallet(LazorKitError::InsufficientBalanceForFee));
        }
    }
    match transfer_sol_from_pda(smart_wallet, payer, execute_fee) {
        Err(e) => {
            return Err(e);
        },
        Ok(_) => {},
    }
    wallet_data.last_nonce = next_nonce;
    Ok(())
}

/// What is left of a wallet after an authorised action, given how the
/// work handed to the runtime ended: a fault of the runtime or of an
/// invoked program is passed on and nothing is settled.
pub open spec fn settle_after_spec(
    outcome: Result<(), ProgramFault>,
    wallet_data: SmartWalletData,
    smart_wallet: AccountInfo,
    payer: AccountInfo,
    execute_fee: u64,
    rent_exempt_minimum: u64,
) -> Result<Settlement, EngineError> {
    match outcome {
        Err(fault) => Err(EngineError::Program(fault)),
        Ok(_) => settle_spec(wallet_data, smart_wallet, payer, execute_fee, rent_exempt_minimum),
    }
}

/// Applies the bookkeeping after an authorised action, unless the work
/// handed to the runtime failed. On failure nothing changes.
pub fn settle_after(
    outcome: &Result<(), ProgramFault>,
    wallet_data: &mut SmartWalletData,
    smart_wallet: &mut AccountInfo,
    payer: &mut AccountInfo,
    execute_fee: u64,
    rent_exempt_minimum: u64,
) -> (r: Result<(), EngineError>)
    ensures
        match settle_after_spec(
            *outcome,
            *old(wallet_data),
            *old(smart_wallet),
            *old(payer),
            execute_fee,
            rent_exempt_minimum,
        ) {
            Ok(s) => {
                &&& r is Ok
                &&& *final(wallet_data) == s.wallet_data
                &&& *final(smart_wallet) == s.smart_wallet
                &&& *final(payer) == s.payer
            },
            Err(e) => {
                &&& r == Err::<(), EngineError>(e)
                &&& *final(wallet_data) == *old(wallet_data)
                &&& *final(smart_wallet) == *old(smart_wallet)
                &&& *final(payer) == *old(payer)
            },
        },
{
    match outcome {
        Err(fault) => {
            return Err(EngineError::Program(*fault));
        },
        Ok(_) => {},
    }
    settle(wallet_data, smart_wallet, payer, execute_fee, rent_exempt_minimum)
}

/// A device record to create, with what the runtime needs to create
/// the account that holds it.
#[derive(Clone, Debug)]
pub struct DeviceCreation {
    /// Address of the new record.
    pub address: Pubkey,
    /// The record to store.
    pub device: WalletDevice,
    /// Bytes to allocate.
    pub space: u64,
}

/// Mathematical content of a [`DeviceCreation`].
pub struct DeviceCreationView {
    pub address: Pubkey,
    pub passkey_pubkey: Seq<u8>,
    pub smart_wallet: Pubkey,
    pub credential_id: Seq<u8>,
    pub bump: u8,
    pub space: u64,
}

impl View for DeviceCreation {
    type V = DeviceCreationView;

    open spec fn view(&self) -> DeviceCreationView {
        DeviceCreationView {
            address: self.address,
            passkey_pubkey: self.device.passkey_pubkey@,
            smart_wallet: self.device.smart_wallet,
            credential_id: self.device.credential_id@,
            bump: self.device.bump,
            space: self.space,
        }
    }
}

/// The view of an optional [`DeviceCreation`].
pub open spec fn optional_creation(c: Option<DeviceCreation>) -> Option<DeviceCreationView> {
    match c {
        None => None,
        Some(c) => Some(c@),
    }
}

/// The record for `passkey_pubkey` on `smart_wallet`, to be stored in
/// the account `new_device`: the passkey must be a compressed point,
/// the credential id must fit the record, the account must hold no
/// data, and it must lie at the address derived for the device, whose
/// bump seed the record keeps.
pub open spec fn init_device_spec(
    new_device: AccountInfo,
    smart_wallet: Pubkey,
    passkey_pubkey: Seq<u8>,
    credential_id: Seq<u8>,
) -> Result<DeviceCreationView, LazorKitError> {
    if !is_compressed_point(passkey_pubkey) {
        Err(LazorKitError::InvalidPasskeyFormat)
    } else if credential_id.len() > MAX_CREDENTIAL_ID_SIZE {
        Err(LazorKitError::CredentialIdTooLarge)
    } else if !new_device.data_is_empty {
        Err(LazorKitError::AccountAlreadyInitialized)
    } else {
        match program_address(device_seeds(passkey_pubkey, smart_wallet), program_id()) {
            None => Err(LazorKitError::InvalidPDADerivation),
            Some((address, bump)) => if address != new_device.key {
                Err(LazorKitError::InvalidPDADerivation)
            } else {
                Ok(
                    DeviceCreationView {
                        address,
                        passkey_pubkey,
                        smart_wallet,
                        credential_id,
                        bump,
                        space: WALLET_DEVICE_SPACE,
                    },
                )
            },
        }
    }
}

/// The view of a result that holds a [`DeviceCreation`].
pub open spec fn creation_result(r: Result<DeviceCreation, LazorKitError>) -> Result<
    DeviceCreationView,
    LazorKitError,
> {
    match r {
        Ok(c) => Ok(c@),
        Err(e) => Err(e),
    }
}

impl WalletDevice {
    /// Prepares the record of a new device of `smart_wallet`, to be
    /// stored in the account `new_device`.
    pub fn init(
        new_device: &AccountInfo,
        smart_wallet: Pubkey,
        passkey_pubkey: [u8; 33],
        credential_id: Vec<u8>,
    ) -> (r: Result<DeviceCreation, LazorKitError>)
        ensures
            creation_result(r) == init_device_spec(
                *new_device,
                smart_wallet,
                passkey_pubkey@,
                credential_id@,
            ),
    {
        if !has_passkey_format(&passkey_pubkey) {
            return Err(LazorKitError::InvalidPasskeyFormat);
        }
        if credential_id.len() > MAX_CREDENTIAL_ID_SIZE {
            return Err(LazorKitError::CredentialIdTooLarge);
        }
        if !new_device.data_is_empty {
            return Err(LazorKitError::AccountAlreadyInitialized);
        }
        let seeds = device_seed_list(&passkey_pubkey, smart_wallet);
        let id = program_id();
        let (address, bump) = match derive_address(&seeds, &id) {
            None => {
                return Err(LazorKitError::InvalidPDADerivation);
            },
            Some(found) => found,
        };
        proof {
            Pubkey::lemma_view_injective(address, new_device.key);
        }
        if address != new_device.key {
            return Err(LazorKitError::InvalidPDADerivation);
        }
        Ok(
            DeviceCreation {
                address,
                device: WalletDevice { passkey_pubkey, smart_wallet, credential_id, bump },
                space: WALLET_DEVICE_SPACE,
            },
        )
    }
}

/// The device to enrol along with an action, if one was asked for. Its
/// account is the first of the remaining accounts.
pub open spec fn enrol_device_spec(
    new_authenticator: Option<NewAuthenticatorArgs>,
    remaining_accounts: Seq<AccountInfo>,
    smart_wallet: Pubkey,
) -> Result<Option<DeviceCreationView>, LazorKitError> {
    match new_authenticator {
        None => Ok(None),
        Some(device) => if !is_compressed_point(device.passkey_pubkey@) {
            Err(LazorKitError::InvalidPasskeyFormat)
        } else if remaining_accounts.len() == 0 {
            Err(LazorKitError::InvalidRemainingAccounts)
        } else {
            match init_device_spec(
                remaining_accounts[0],
                smart_wallet,
                device.passkey_pubkey@,
                device.credential_id@,
            ) {
                Err(e) => Err(e),
                Ok(creation) => Ok(Some(creation)),
            }
        },
    }
}

/// Prepares the enrolment of the device asked for along with an action.
pub fn enrol_device(
    new_authenticator: &Option<NewAuthenticatorArgs>,
    remaining_accounts: &[AccountInfo],
    smart_wallet: Pubkey,
) -> (r: Result<Option<DeviceCreation>, LazorKitError>)
    ensures
        match enrol_device_spec(*new_authenticator, remaining_accounts@, smart_wallet) {
            Err(e) => r matches Err(got) && got == e,
            Ok(creation) => r matches Ok(got) && optional_creation(got) == creation,
        },
{
    match new_authenticator {
        None => Ok(None),
        Some(device) => {
            if !has_passkey_format(&device.passkey_pubkey) {
                return Err(LazorKitError::InvalidPasskeyFormat);
            }
            if remaining_accounts.len() == 0 {
                return Err(LazorKitError::InvalidRemainingAccounts);
            }
            match WalletDevice::init(
                &remaining_accounts[0],
                smart_wallet,
                device.passkey_pubkey,
                to_vec(device.credential_id.as_slice()),
            ) {
                Err(e) => Err(e),
                Ok(creation) => Ok(Some(creation)),
            }
        },
    }
}

/// Number of remaining accounts set aside for a device to enrol.
pub open spec fn reserved_accounts(new_authenticator: Option<NewAuthenticatorArgs>) -> int {
    if new_authenticator is Some {
        1
    } else {
        0
    }
}

} // verus!
