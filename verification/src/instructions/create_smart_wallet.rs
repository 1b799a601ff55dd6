//! Create a wallet with its first device.
//!
//! [`create_smart_wallet`] checks the request and hands back the
//! records to store and the call that initialises the default policy
//! for the wallet; [`create_smart_wallet_finish`] collects the creation
//! fee from the new wallet where the payer does not cover it.

use vstd::prelude::*;
use crate::account::AccountInfo;
use crate::cpi::{
    prepare_cpi, prepare_cpi_spec, transfer_sol_from_pda, transfer_spec, Invocation,
    InvocationView,
};
use crate::error::{EngineError, LazorKitError, ProgramFault};
use crate::instructions::args::{has_passkey_format, is_compressed_point, CreateSmartWalletArgs};
use crate::instructions::common::{
    init_device_spec, DeviceCreation, DeviceCreationView,
};
use crate::pda::{
    derive_address, device_seeds, get_pda_signer, program_address, wallet_seed_list, wallet_seeds,
    PdaSignerView,
};
use crate::pubkey::{program_id, system_program_id, Pubkey};
use crate::security::validation::{
    validate_credential_id, validate_credential_id_spec, validate_policy_data,
    validate_policy_data_spec, validate_remaining_accounts,
};
use crate::security::MAX_REMAINING_ACCOUNTS;
use crate::state::{check_whitelist, Config, PolicyProgramRegistry, SmartWalletData, WalletDevice};
use crate::bytes::to_vec;

verus! {

/// The accounts of `create_smart_wallet`.
#[derive(Clone, Debug)]
pub struct CreateSmartWallet {
    /// Pays for the new accounts.
    pub signer: AccountInfo,
    pub policy_program_registry: PolicyProgramRegistry,
    /// The account that becomes the wallet.
    pub smart_wallet: AccountInfo,
    /// The account that will hold the first device.
    pub wallet_device: AccountInfo,
    pub config: Config,
    pub default_policy_program: AccountInfo,
    /// The accounts handed to the policy program.
    pub remaining_accounts: Vec<AccountInfo>,
}

/// What the runtime has to do to create the wallet.
#[derive(Clone, Debug)]
pub struct WalletCreation {
    /// The data record of the wallet.
    pub wallet_data: SmartWalletData,
    /// The record of the first device.
    pub device: DeviceCreation,
    /// The call that initialises the policy of the wallet.
    pub init_policy: Invocation,
}

/// Mathematical content of a [`WalletCreation`].
pub struct WalletCreationView {
    pub wallet_data: SmartWalletData,
    pub device: DeviceCreationView,
    pub init_policy: InvocationView,
}

impl View for WalletCreation {
    type V = WalletCreationView;

    open spec fn view(&self) -> WalletCreationView {
        WalletCreationView {
            wallet_data: self.wallet_data,
            device: self.device@,
            init_policy: self.init_policy@,
        }
    }
}

/// Verdict on the arguments: the engine accepts requests, the
/// credential id and the policy data have an accepted size, the passkey
/// is a compressed point, and the identifier is not zero.
pub open spec fn create_wallet_preconditions(
    ctx: CreateSmartWallet,
    args: CreateSmartWalletArgs,
) -> Result<(), LazorKitError> {
    if ctx.config.is_paused {
        Err(LazorKitError::ProgramPaused)
    } else if validate_credential_id_spec(args.credential_id@) is Err {
        validate_credential_id_spec(args.credential_id@)
    } else if validate_policy_data_spec(args.policy_data@) is Err {
        validate_policy_data_spec(args.policy_data@)
    } else if ctx.remaining_accounts@.len() > MAX_REMAINING_ACCOUNTS {
        Err(LazorKitError::TooManyRemainingAccounts)
    } else if !is_compressed_point(args.passkey_pubkey@) {
        Err(LazorKitError::InvalidPasskeyFormat)
    } else if args.wallet_id == 0 {
        Err(LazorKitError::InvalidSequenceNumber)
    } else {
        Ok(())
    }
}

/// Verdict on the policy program of a new wallet: it is executable,
/// registered, and the default the configuration names.
pub open spec fn check_default_policy_spec(ctx: CreateSmartWallet) -> Result<(), LazorKitError> {
    if !ctx.default_policy_program.executable {
        Err(LazorKitError::ProgramNotExecutable)
    } else if !ctx.policy_program_registry@.contains(ctx.default_policy_program.key) {
        Err(LazorKitError::PolicyProgramNotRegistered)
    } else if ctx.default_policy_program.key != ctx.config.default_policy_program {
        Err(LazorKitError::InvalidProgramAddress)
    } else {
        Ok(())
    }
}

/// Verdict on the account offered as the wallet, with the bump seed of
/// its address: the account lies at the address derived from the
/// identifier, and no program has claimed it yet.
pub open spec fn check_wallet_account_spec(smart_wallet: AccountInfo, wallet_id: u64) -> Result<
    u8,
    LazorKitError,
> {
    match program_address(wallet_seeds(wallet_id), program_id()) {
        None => Err(LazorKitError::InvalidPDADerivation),
        Some((address, bump)) => if address != smart_wallet.key {
            Err(LazorKitError::InvalidPDADerivation)
        } else if smart_wallet.owner != system_program_id() {
            Err(LazorKitError::AccountAlreadyInitialized)
        } else {
            Ok(bump)
        },
    }
}

/// What the runtime has to do to create the wallet, or the reason the
/// request is refused. The wallet starts with the default policy
/// program and the nonce zero.
pub open spec fn create_smart_wallet_spec(
    ctx: CreateSmartWallet,
    args: CreateSmartWalletArgs,
) -> Result<WalletCreationView, LazorKitError> {
    if create_wallet_preconditions(ctx, args) is Err {
        Err(create_wallet_preconditions(ctx, args)->Err_0)
    } else if check_default_policy_spec(ctx) is Err {
        Err(check_default_policy_spec(ctx)->Err_0)
    } else {
        match check_wallet_account_spec(ctx.smart_wallet, args.wallet_id) {
            Err(e) => Err(e),
            Ok(bump) => match init_device_spec(
                ctx.wallet_device,
                ctx.smart_wallet.key,
                args.passkey_pubkey@,
                args.credential_id@,
            ) {
                Err(e) => Err(e),
                Ok(device) => match prepare_cpi_spec(
                    ctx.remaining_accounts@,
                    args.policy_data@,
                    ctx.default_policy_program.key,
                    PdaSignerView {
                        seeds: device_seeds(args.passkey_pubkey@, ctx.smart_wallet.key),
                        bump: device.bump,
                    },
                    Seq::empty(),
                ) {
                    Err(e) => Err(e),
                    Ok(init_policy) => Ok(
                        WalletCreationView {
                            wallet_data: SmartWalletData {
                                id: args.wallet_id,
                                policy_program: ctx.config.default_policy_program,
                                last_nonce: 0,
                                bump,
                            },
                            device,
                            init_policy,
                        },
                    ),
                },
            },
        }
    }
}

fn create_wallet_precheck(ctx: &CreateSmartWallet, args: &CreateSmartWalletArgs) -> (r: Result<
    (),
    LazorKitError,
>)
    ensures
        r == create_wallet_preconditions(*ctx, *args),
{
    if ctx.config.is_paused {
        return Err(LazorKitError::ProgramPaused);
    }
    match validate_credential_id(args.credential_id.as_slice()) {
        Err(e) => {
            return Err(e);
        },
        Ok(_) => {},
    }
    match validate_policy_data(args.policy_data.as_slice()) {
        Err(e) => {
            return Err(e);
        },
        Ok(_) => {},
    }
    match validate_remaining_accounts(ctx.remaining_accounts.as_slice()) {
        Err(e) => {
            return Err(e);
        },
        Ok(_) => {},
    }
    if !has_passkey_format(&args.passkey_pubkey) {
        return Err(LazorKitError::InvalidPasskeyFormat);
    }
    if args.wallet_id == 0 {
        return Err(LazorKitError::InvalidSequenceNumber);
    }
    Ok(())
}

fn check_default_policy(ctx: &CreateSmartWallet) -> (r: Result<(), LazorKitError>)
    ensures
        r == check_default_policy_spec(*ctx),
{
    if !ctx.default_policy_program.executable {
        return Err(LazorKitError::ProgramNotExecutable);
    }
    match check_whitelist(&ctx.policy_program_registry, &ctx.default_policy_program.key) {
        Err(e) => {
            return Err(e);
        },
        Ok(_) => {},
    }
    proof {
        Pubkey::lemma_view_injective(
            ctx.default_policy_program.key,
            ctx.config.default_policy_program,
        );
    }
    if ctx.default_policy_program.key != ctx.config.default_policy_program {
        return Err(LazorKitError::InvalidProgramAddress);
    }
    Ok(())
}

/// Checks the account offered as the wallet and finds its bump seed.
pub fn check_wallet_account(smart_wallet: &AccountInfo, wallet_id: u64) -> (r: Result<
    u8,
    LazorKitError,
>)
    ensures
        r == check_wallet_account_spec(*smart_wallet, wallet_id),
{
    let seeds = wallet_seed_list(wallet_id);
    let id = program_id();
    match derive_address(&seeds, &id) {
        None => Err(LazorKitError::InvalidPDADerivation),
        Some((address, bump)) => {
            let system = system_program_id();
            proof {
                Pubkey::lemma_view_injective(address, smart_wallet.key);
                Pubkey::lemma_view_injective(smart_wallet.owner, system);
            }
            if address != smart_wallet.key {
                Err(LazorKitError::InvalidPDADerivation)
            } else if smart_wallet.owner != system {
                Err(LazorKitError::AccountAlreadyInitialized)
            } else {
                Ok(bump)
            }
        },
    }
}

/// First step of creating a wallet: checks the request and prepares
/// the records of the wallet and its first device and the call that
/// initialises the policy. Nothing is changed.
pub fn create_smart_wallet(ctx: &CreateSmartWallet, args: &CreateSmartWalletArgs) -> (r: Result<
    WalletCreation,
    EngineError,
>)
    ensures
        match create_smart_wallet_spec(*ctx, *args) {
            Err(e) => r matches Err(got) && got == EngineError::Wallet(e),
            Ok(creation) => r matches Ok(got) && got@ == creation,
        },
{
    match create_wallet_precheck(ctx, args) {
        Err(e) => {
            return Err(EngineError::Wallet(e));
        },
        Ok(_) => {},
    }
    match check_default_policy(ctx) {
        Err(e) => {
            return Err(EngineError::Wallet(e));
        },
        Ok(_) => {},
    }
    let bump = match check_wallet_account(&ctx.smart_wallet, args.wallet_id) {
        Err(e) => {
            return Err(EngineError::Wallet(e));
        },
        Ok(bump) => bump,
    };
    let device = match WalletDevice::init(
        &ctx.wallet_device,
        ctx.smart_wallet.key,
        args.passkey_pubkey,
        to_vec(args.credential_id.as_slice()),
    ) {
        Err(e) => {
            return Err(EngineError::Wallet(e));
        },
        Ok(device) => device,
    };
    let none: Vec<Pubkey> = Vec::new();
    assert(none@ =~= Seq::<Pubkey>::empty());
    let init_policy = match prepare_cpi(
        ctx.remaining_accounts.as_slice(),
        args.policy_data.as_slice(),
        &ctx.default_policy_program,
        get_pda_signer(&args.passkey_pubkey, ctx.smart_wallet.key, device.device.bump),
        none.as_slice(),
    ) {
        Err(e) => {
            return Err(EngineError::Wallet(e));
        },
        Ok(call) => call,
    };
    Ok(
        WalletCreation {
            wallet_data: SmartWalletData {
                id: args.wallet_id,
                policy_program: ctx.config.default_policy_program,
                last_nonce: 0,
                bump,
            },
            device,
            init_policy,
        },
    )
}

/// The balances of the new wallet and of the payer once the creation
/// fee is settled. A fault of the call that initialises the policy is
/// passed on. Where the payer covers the fee, or none is set, nothing
/// moves; else the wallet pays the fee to the payer and must keep the
/// rent-exempt minimum.
pub open spec fn creation_fee_spec(
    init_outcome: Result<(), ProgramFault>,
    smart_wallet: AccountInfo,
    signer: AccountInfo,
    create_smart_wallet_fee: u64,
    is_pay_for_user: bool,
    rent_exempt_minimum: u64,
) -> Result<(u64, u64), EngineError> {
    if init_outcome is Err {
        Err(EngineError::Program(init_outcome->Err_0))
    } else if is_pay_for_user || create_smart_wallet_fee == 0 {
        Ok((smart_wallet.lamports, signer.lamports))
    } else if smart_wallet.lamports < create_smart_wallet_fee + rent_exempt_minimum {
        Err(EngineError::Wallet(LazorKitError::InsufficientBalanceForFee))
    } else {
        transfer_spec(
            smart_wallet.owner,
            smart_wallet.lamports,
            signer.lamports,
            create_smart_wallet_fee,
        )
    }
}

/// Last step of creating a wallet, once the accounts exist and the
/// policy program has been called: collects the creation fee. On
/// failure nothing changes.
///
/// `init_outcome` is how the call that initialises the policy ended.
pub fn create_smart_wallet_finish(
    init_outcome: &Result<(), ProgramFault>,
    smart_wallet: &mut AccountInfo,
    signer: &mut AccountInfo,
    config: &Config,
    is_pay_for_user: bool,
    rent_exempt_minimum: u64,
) -> (r: Result<(), EngineError>)
    ensures
        match creation_fee_spec(
            *init_outcome,
            *old(smart_wallet),
            *old(signer),
            config.create_smart_wallet_fee,
            is_pay_for_user,
            rent_exempt_minimum,
        ) {
            Ok((wallet_lamports, signer_lamports)) => {
                &&& r is Ok
                &&& *final(smart_wallet) == (AccountInfo {
                    lamports: wallet_lamports,
                    ..*old(smart_wallet)
                })
                &&& *final(signer) == (AccountInfo { lamports: signer_lamports, ..*old(signer) })
            },
            Err(e) => {
                &&& r == Err::<(), EngineError>(e)
                &&& *final(smart_wallet) == *old(smart_wallet)
                &&& *final(signer) == *old(signer)
            },
        },
{
    match init_outcome {
        Err(fault) => {
            return Err(EngineError::Program(*fault));
        },
        Ok(_) => {},
    }
    let fee = config.create_smart_wallet_fee;
    if is_pay_for_user || fee == 0 {
        return Ok(());
    }
    let enough = match fee.checked_add(rent_exempt_minimum) {
        None => false,
        Some(needed) => smart_wallet.lamports >= needed,
    };
    if !enough {
        return Err(EngineError::Wallet(LazorKitError::InsufficientBalanceForFee));
    }
    transfer_sol_from_pda(smart_wallet, signer, fee)
}

/// No wallet is created with the identifier zero.
pub proof fn lemma_zero_wallet_id_is_rejected(ctx: CreateSmartWallet, args: CreateSmartWalletArgs)
    requires
        args.wallet_id == 0,
    ensures
        create_smart_wallet_spec(ctx, args) is Err,
{
}

/// No wallet is created twice. A wallet lies at the address derived
/// from its identifier and, once created, belongs to this program: so
/// where one request for an identifier was accepted and the account at
/// that address has since been claimed by this program, every further
/// request for the identifier is refused.
pub proof fn lemma_wallet_is_created_once(
    first: CreateSmartWallet,
    first_args: CreateSmartWalletArgs,
    second: CreateSmartWallet,
    second_args: CreateSmartWalletArgs,
)
    requires
        create_smart_wallet_spec(first, first_args) is Ok,
        second_args.wallet_id == first_args.wallet_id,
        second.smart_wallet.owner == program_id(),
    ensures
        create_smart_wallet_spec(second, second_args) is Err,
{
    assert(program_id().bytes[0] == 253);
    assert(system_program_id().bytes[0] == 0);
}

/// Two accepted requests for one identifier name the same wallet
/// account.
pub proof fn lemma_wallet_address_is_determined(
    first: CreateSmartWallet,
    first_args: CreateSmartWalletArgs,
    second: CreateSmartWallet,
    second_args: CreateSmartWalletArgs,
)
    requires
        create_smart_wallet_spec(first, first_args) is Ok,
        create_smart_wallet_spec(second, second_args) is Ok,
        second_args.wallet_id == first_args.wallet_id,
    ensures
        second.smart_wallet.key == first.smart_wallet.key,
{
}

} // verus!
