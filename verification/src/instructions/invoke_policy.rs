//! Call an entry point of the wallet's policy program, and enrol a new
//! device along the way if the challenge names one.
//!
//! [`invoke_policy`] authorises the request and hands back what the
//! runtime has to do; [`invoke_policy_finish`] bumps the nonce and
//! collects the fee once that is done.

use vstd::prelude::*;
use crate::account::{AccountInfo, InstructionView, InstructionsSysvar};
use crate::auth::{instruction_at, verify_authorization, verify_authorization_spec};
use crate::bytes::slice_eq;
use crate::cpi::{prepare_cpi, prepare_cpi_spec, Invocation, InvocationView};
use crate::error::{EngineError, LazorKitError, ProgramFault};
use crate::instructions::args::{Args, InvokePolicyArgs, NewAuthenticatorArgs};
use crate::instructions::common::{
    check_accounts_hash, check_accounts_hash_spec, check_data_hash, check_data_hash_spec,
    enrol_device, enrol_device_spec, optional_creation, reserved_accounts, settle_after, settle_after_spec,
    DeviceCreation, DeviceCreationView, Settlement,
};
use crate::message::InvokePolicyMessage;
use crate::pda::{device_seeds, get_pda_signer, PdaSignerView};
use crate::pubkey::Pubkey;
use crate::security::validation::{
    validate_policy_data, validate_policy_data_spec, validate_program_executable,
    validate_remaining_accounts,
};
use crate::security::MAX_REMAINING_ACCOUNTS;
use crate::state::{
    check_whitelist, Config, PolicyProgramRegistry, SmartWalletData, WalletDevice,
};

verus! {

/// The accounts of `invoke_policy`.
#[derive(Clone, Debug)]
pub struct InvokePolicy {
    pub payer: AccountInfo,
    pub config: Config,
    pub smart_wallet: AccountInfo,
    pub smart_wallet_data: SmartWalletData,
    pub wallet_device: WalletDevice,
    pub policy_program: AccountInfo,
    pub policy_program_registry: PolicyProgramRegistry,
    /// The account of the device to enrol, if one is asked for, then
    /// the accounts of the policy call.
    pub remaining_accounts: Vec<AccountInfo>,
    /// The instructions of the transaction.
    pub ix_sysvar: InstructionsSysvar,
}

/// What the runtime has to do for an accepted request.
#[derive(Clone, Debug)]
pub struct InvokePolicyPlan {
    /// The device record to create first, if any.
    pub new_device: Option<DeviceCreation>,
    /// The call into the policy program.
    pub policy_call: Invocation,
}

/// Mathematical content of an [`InvokePolicyPlan`].
pub struct InvokePolicyPlanView {
    pub new_device: Option<DeviceCreationView>,
    pub policy_call: InvocationView,
}

impl View for InvokePolicyPlan {
    type V = InvokePolicyPlanView;

    open spec fn view(&self) -> InvokePolicyPlanView {
        InvokePolicyPlanView {
            new_device: optional_creation(self.new_device),
            policy_call: self.policy_call@,
        }
    }
}

/// The passkey of the device the arguments ask to enrol.
pub open spec fn requested_passkey(new_authenticator: Option<NewAuthenticatorArgs>) -> Option<
    Seq<u8>,
> {
    match new_authenticator {
        None => None,
        Some(device) => Some(device.passkey_pubkey@),
    }
}

/// The passkey of the device the challenge allows to enrol.
pub open spec fn signed_passkey(msg: InvokePolicyMessage) -> Option<Seq<u8>> {
    match msg.new_passkey {
        None => None,
        Some(key) => Some(key@),
    }
}

/// Verdict on a request before its authorization is looked at.
pub open spec fn invoke_policy_preconditions(ctx: InvokePolicy, args: InvokePolicyArgs) -> Result<
    (),
    LazorKitError,
> {
    if args.validate_spec() is Err {
        args.validate_spec()
    } else if ctx.config.is_paused {
        Err(LazorKitError::ProgramPaused)
    } else if ctx.remaining_accounts@.len() > MAX_REMAINING_ACCOUNTS {
        Err(LazorKitError::TooManyRemainingAccounts)
    } else if !ctx.policy_program.executable {
        Err(LazorKitError::ProgramNotExecutable)
    } else if ctx.policy_program.key != ctx.smart_wallet_data.policy_program {
        Err(LazorKitError::InvalidProgramAddress)
    } else if !ctx.policy_program_registry@.contains(ctx.policy_program.key) {
        Err(LazorKitError::PolicyProgramNotRegistered)
    } else {
        validate_policy_data_spec(args.policy_data@)
    }
}

/// The message that authorises the request, if one does.
pub open spec fn authorize_invoke_spec(
    ctx: InvokePolicy,
    args: InvokePolicyArgs,
    verify_instruction: Result<InstructionView, ProgramFault>,
    now: i64,
) -> Result<InvokePolicyMessage, EngineError> {
    verify_authorization_spec::<InvokePolicyMessage>(
        verify_instruction,
        ctx.wallet_device,
        ctx.smart_wallet.key,
        args.passkey_pubkey@,
        args.signature@,
        args.client_data_json_raw@,
        args.authenticator_data_raw@,
        ctx.smart_wallet_data.last_nonce,
        now,
    )
}

/// The accounts handed to the policy program: all remaining accounts
/// but the one set aside for a new device.
pub open spec fn invoke_policy_accounts(ctx: InvokePolicy, args: InvokePolicyArgs) -> Seq<
    AccountInfo,
> {
    ctx.remaining_accounts@.subrange(
        reserved_accounts(args.new_authenticator),
        ctx.remaining_accounts@.len() as int,
    )
}

/// Verdict on an authorised request: the policy data and accounts are
/// the ones the challenge commits to, and the device to enrol is the
/// one the challenge names.
pub open spec fn invoke_policy_bindings(
    ctx: InvokePolicy,
    args: InvokePolicyArgs,
    msg: InvokePolicyMessage,
) -> Result<(), LazorKitError> {
    if check_data_hash_spec(args.policy_data@, msg.policy_data_hash@) is Err {
        Err(LazorKitError::InvalidInstructionData)
    } else if requested_passkey(args.new_authenticator) != signed_passkey(msg) {
        Err(LazorKitError::PasskeyMismatch)
    } else if reserved_accounts(args.new_authenticator) > ctx.remaining_accounts@.len() {
        Err(LazorKitError::InvalidRemainingAccounts)
    } else {
        check_accounts_hash_spec(
            ctx.policy_program.key,
            invoke_policy_accounts(ctx, args),
            msg.policy_accounts_hash@,
        )
    }
}

/// What the runtime has to do for the request, or the reason the
/// request is refused.
pub open spec fn invoke_policy_spec(
    ctx: InvokePolicy,
    args: InvokePolicyArgs,
    verify_instruction: Result<InstructionView, ProgramFault>,
    now: i64,
) -> Result<InvokePolicyPlanView, EngineError> {
    if invoke_policy_preconditions(ctx, args) is Err {
        Err(EngineError::Wallet(invoke_policy_preconditions(ctx, args)->Err_0))
    } else {
        match authorize_invoke_spec(ctx, args, verify_instruction, now) {
            Err(e) => Err(e),
            Ok(msg) => if invoke_policy_bindings(ctx, args, msg) is Err {
                Err(EngineError::Wallet(invoke_policy_bindings(ctx, args, msg)->Err_0))
            } else {
                match enrol_device_spec(
                    args.new_authenticator,
                    ctx.remaining_accounts@,
                    ctx.smart_wallet.key,
                ) {
                    Err(e) => Err(EngineError::Wallet(e)),
                    Ok(new_device) => match prepare_cpi_spec(
                        invoke_policy_accounts(ctx, args),
                        args.policy_data@,
                        ctx.policy_program.key,
                        PdaSignerView {
                            seeds: device_seeds(args.passkey_pubkey@, ctx.smart_wallet.key),
                            bump: ctx.wallet_device.bump,
                        },
                        seq![ctx.payer.key],
                    ) {
                        Err(e) => Err(EngineError::Wallet(e)),
                        Ok(policy_call) => Ok(InvokePolicyPlanView { new_device, policy_call }),
                    },
                }
            },
        }
    }
}

fn invoke_policy_precheck(ctx: &InvokePolicy, args: &InvokePolicyArgs) -> (r: Result<
    (),
    LazorKitError,
>)
    ensures
        r == invoke_policy_preconditions(*ctx, *args),
{
    match args.validate() {
        Err(e) => {
            return Err(e);
        },
        Ok(_) => {},
    }
    if ctx.config.is_paused {
        return Err(LazorKitError::ProgramPaused);
    }
    match validate_remaining_accounts(ctx.remaining_accounts.as_slice()) {
        Err(e) => {
            return Err(e);
        },
        Ok(_) => {},
    }
    match validate_program_executable(&ctx.policy_program) {
        Err(e) => {
            return Err(e);
        },
        Ok(_) => {},
    }
    proof {
        Pubkey::lemma_view_injective(ctx.policy_program.key, ctx.smart_wallet_data.policy_program);
    }
    if ctx.policy_program.key != ctx.smart_wallet_data.policy_program {
        return Err(LazorKitError::InvalidProgramAddress);
    }
    match check_whitelist(&ctx.policy_program_registry, &ctx.policy_program.key) {
        Err(e) => {
            return Err(e);
        },
        Ok(_) => {},
    }
    validate_policy_data(args.policy_data.as_slice())
}

fn same_passkey(requested: &Option<NewAuthenticatorArgs>, signed: &Option<[u8; 33]>) -> (r: bool)
    ensures
        r == (requested_passkey(*requested) == (match *signed {
            None => None::<Seq<u8>>,
            Some(key) => Some(key@),
        })),
{
    match requested {
        None => signed.is_none(),
        Some(device) => match signed {
            None => false,
            Some(key) => slice_eq(device.passkey_pubkey.as_slice(), key.as_slice()),
        },
    }
}

fn invoke_policy_bind(ctx: &InvokePolicy, args: &InvokePolicyArgs, msg: &InvokePolicyMessage) -> (r:
    Result<(), LazorKitError>)
    ensures
        r == invoke_policy_bindings(*ctx, *args, *msg),
{
    match check_data_hash(args.policy_data.as_slice(), &msg.policy_data_hash) {
        Err(e) => {
            return Err(e);
        },
        Ok(_) => {},
    }
    if !same_passkey(&args.new_authenticator, &msg.new_passkey) {
        return Err(LazorKitError::PasskeyMismatch);
    }
    let start: usize = if args.new_authenticator.is_some() {
        1
    } else {
        0
    };
    let total: usize = ctx.remaining_accounts.len();
    if start > total {
        return Err(LazorKitError::InvalidRemainingAccounts);
    }
    let policy_accounts = vstd::slice::slice_subrange(
        ctx.remaining_accounts.as_slice(),
        start,
        total,
    );
    check_accounts_hash(&ctx.policy_program.key, policy_accounts, &msg.policy_accounts_hash)
}

/// First step of invoking the policy program: authorises the request,
/// checks its bindings, and prepares the enrolment of the new device
/// and the call into the policy program. Nothing is changed.
///
/// `now` is the runtime clock.
pub fn invoke_policy(
    ctx: &InvokePolicy,
    args: &InvokePolicyArgs,
    now: i64,
) -> (r: Result<InvokePolicyPlan, EngineError>)
    ensures
        match invoke_policy_spec(*ctx, *args, instruction_at(ctx.ix_sysvar, args.verify_instruction_index), now) {
            Err(e) => r matches Err(got) && got == e,
            Ok(plan) => r matches Ok(got) && got@ == plan,
        },
{
    match invoke_policy_precheck(ctx, args) {
        Err(e) => {
            return Err(EngineError::Wallet(e));
        },
        Ok(_) => {},
    }
    let msg: InvokePolicyMessage = match verify_authorization::<InvokePolicyMessage>(
        &ctx.ix_sysvar,
        &ctx.wallet_device,
        ctx.smart_wallet.key,
        args.passkey_pubkey,
        args.signature.as_slice(),
        args.client_data_json_raw.as_slice(),
        args.authenticator_data_raw.as_slice(),
        args.verify_instruction_index,
        ctx.smart_wallet_data.last_nonce,
        now,
    ) {
        Err(e) => {
            return Err(e);
        },
        Ok(msg) => msg,
    };
    match invoke_policy_bind(ctx, args, &msg) {
        Err(e) => {
            return Err(EngineError::Wallet(e));
        },
        Ok(_) => {},
    }
    let new_device = match enrol_device(
        &args.new_authenticator,
        ctx.remaining_accounts.as_slice(),
        ctx.smart_wallet.key,
    ) {
        Err(e) => {
            return Err(EngineError::Wallet(e));
        },
        Ok(d) => d,
    };
    let start: usize = if args.new_authenticator.is_some() {
        1
    } else {
        0
    };
    let policy_accounts = vstd::slice::slice_subrange(
        ctx.remaining_accounts.as_slice(),
        start,
        ctx.remaining_accounts.len(),
    );
    let policy_signer = get_pda_signer(
        &args.passkey_pubkey,
        ctx.smart_wallet.key,
        ctx.wallet_device.bump,
    );
    let mut allowed: Vec<Pubkey> = Vec::new();
    allowed.push(ctx.payer.key);
    assert(allowed@ =~= seq![ctx.payer.key]);
    match prepare_cpi(
        policy_accounts,
        args.policy_data.as_slice(),
        &ctx.policy_program,
        policy_signer,
        allowed.as_slice(),
    ) {
        Err(e) => Err(EngineError::Wallet(e)),
        Ok(policy_call) => Ok(InvokePolicyPlan { new_device, policy_call }),
    }
}

/// What is left of the wallet once the policy program has been called.
pub open spec fn invoke_policy_finish_spec(
    ctx: InvokePolicy,
    outcome: Result<(), ProgramFault>,
    rent_exempt_minimum: u64,
) -> Result<Settlement, EngineError> {
    settle_after_spec(
        outcome,
        ctx.smart_wallet_data,
        ctx.smart_wallet,
        ctx.payer,
        ctx.config.execute_fee,
        rent_exempt_minimum,
    )
}

/// Last step of invoking the policy program, after the plan has been
/// handed to the runtime: where it failed, the fault is passed on; else
/// the nonce is bumped and the fee collected. On failure nothing
/// changes.
///
/// `outcome` is how the plan ended.
pub fn invoke_policy_finish(
    ctx: &mut InvokePolicy,
    outcome: &Result<(), ProgramFault>,
    rent_exempt_minimum: u64,
) -> (r: Result<(), EngineError>)
    ensures
        match invoke_policy_finish_spec(*old(ctx), *outcome, rent_exempt_minimum) {
            Ok(s) => {
                &&& r is Ok
                &&& final(ctx).smart_wallet_data == s.wallet_data
                &&& final(ctx).smart_wallet == s.smart_wallet
                &&& final(ctx).payer == s.payer
            },
            Err(e) => {
                &&& r == Err::<(), EngineError>(e)
                &&& final(ctx).smart_wallet_data == old(ctx).smart_wallet_data
                &&& final(ctx).smart_wallet == old(ctx).smart_wallet
                &&& final(ctx).payer == old(ctx).payer
            },
        },
        final(ctx).remaining_accounts == old(ctx).remaining_accounts,
        final(ctx).wallet_device == old(ctx).wallet_device,
        final(ctx).policy_program_registry == old(ctx).policy_program_registry,
        final(ctx).policy_program == old(ctx).policy_program,
        final(ctx).config == old(ctx).config,
        final(ctx).ix_sysvar == old(ctx).ix_sysvar,
{
    let fee = ctx.config.execute_fee;
    match settle_after(
        outcome,
        &mut ctx.smart_wallet_data,
        &mut ctx.smart_wallet,
        &mut ctx.payer,
        fee,
        rent_exempt_minimum,
    ) {
        Err(e) => Err(e),
        Ok(_) => Ok(()),
    }
}

} // verus!
