//! Swap the policy program of a wallet.
//!
//! The old policy is destroyed and the new one initialised by calls
//! into the two programs; one of the two must be the default policy
//! program, so that a wallet never moves directly between two custom
//! policies. [`update_policy`] authorises the request and hands back
//! what the runtime has to do; [`update_policy_init`] hands out the
//! second call once the first has succeeded; [`update_policy_finish`]
//! then binds the wallet to the new program, bumps the nonce and
//! collects the fee.

use vstd::prelude::*;
use crate::account::{AccountInfo, InstructionView, InstructionsSysvar};
use crate::auth::{instruction_at, verify_authorization, verify_authorization_spec};
use crate::cpi::{prepare_cpi, prepare_cpi_spec, Invocation, InvocationView};
use crate::error::{EngineError, LazorKitError, ProgramFault};
use crate::instructions::args::{Args, UpdatePolicyArgs};
use crate::instructions::common::{
    check_accounts_hash, check_accounts_hash_spec, check_data_hash, check_data_hash_spec,
    check_discriminator, enrol_device, enrol_device_spec, has_discriminator, optional_creation,
    reserved_accounts, settle_after, settle_after_spec, DeviceCreation, DeviceCreationView, Settlement,
};
use crate::message::UpdatePolicyMessage;
use crate::pda::{device_seeds, get_pda_signer, PdaSignerView};
use crate::pubkey::Pubkey;
use crate::security::validation::{
    validate_policy_data, validate_policy_data_spec, validate_program_executable,
    validate_remaining_accounts,
};
use crate::security::MAX_REMAINING_ACCOUNTS;
use crate::state::{
    check_whitelist, Config, PolicyProgramRegistry, SmartWalletData, WalletDevice,
};

verus! {

/// The accounts of `update_policy`.
#[derive(Clone, Debug)]
pub struct UpdatePolicy {
    pub payer: AccountInfo,
    pub config: Config,
    pub smart_wallet: AccountInfo,
    pub smart_wallet_data: SmartWalletData,
    pub wallet_device: WalletDevice,
    pub old_policy_program: AccountInfo,
    pub new_policy_program: AccountInfo,
    pub policy_program_registry: PolicyProgramRegistry,
    /// The account of the device to enrol, if one is asked for, then
    /// the accounts for destroying the old policy, then the accounts
    /// for initialising the new one.
    pub remaining_accounts: Vec<AccountInfo>,
    /// The instructions of the transaction.
    pub ix_sysvar: InstructionsSysvar,
}

/// What the runtime has to do for an accepted request, in this order:
/// create the device record, destroy the old policy, initialise the new
/// one.
#[derive(Clone, Debug)]
pub struct UpdatePolicyPlan {
    /// The device record to create, if any.
    pub new_device: Option<DeviceCreation>,
    /// The call that destroys the state of the old policy.
    pub destroy: Invocation,
    /// The call that initialises the new policy.
    pub init: Invocation,
}

/// Mathematical content of an [`UpdatePolicyPlan`].
pub struct UpdatePolicyPlanView {
    pub new_device: Option<DeviceCreationView>,
    pub destroy: InvocationView,
    pub init: InvocationView,
}

impl View for UpdatePolicyPlan {
    type V = UpdatePolicyPlanView;

    open spec fn view(&self) -> UpdatePolicyPlanView {
        UpdatePolicyPlanView {
            new_device: optional_creation(self.new_device),
            destroy: self.destroy@,
            init: self.init@,
        }
    }
}

impl UpdatePolicy {
    /// Index of the first account for the new policy.
    pub open spec fn split_point(&self, args: UpdatePolicyArgs) -> int {
        reserved_accounts(args.new_authenticator) + args.split_index
    }

    /// The accounts handed to the old policy program.
    pub open spec fn destroy_accounts(&self, args: UpdatePolicyArgs) -> Seq<AccountInfo> {
        self.remaining_accounts@.subrange(
            reserved_accounts(args.new_authenticator),
            self.split_point(args),
        )
    }

    /// The accounts handed to the new policy program.
    pub open spec fn init_accounts(&self, args: UpdatePolicyArgs) -> Seq<AccountInfo> {
        self.remaining_accounts@.subrange(
            self.split_point(args),
            self.remaining_accounts@.len() as int,
        )
    }
}

/// Verdict on the two programs of a request: both executable and
/// registered, the old one the wallet's current policy, and the two
/// distinct.
pub open spec fn check_policy_programs_spec(
    old_policy_program: AccountInfo,
    new_policy_program: AccountInfo,
    registry: Seq<Pubkey>,
    wallet_data: SmartWalletData,
) -> Result<(), LazorKitError> {
    if !old_policy_program.executable || !new_policy_program.executable {
        Err(LazorKitError::ProgramNotExecutable)
    } else if !registry.contains(old_policy_program.key) || !registry.contains(
        new_policy_program.key,
    ) {
        Err(LazorKitError::PolicyProgramNotRegistered)
    } else if wallet_data.policy_program != old_policy_program.key {
        Err(LazorKitError::InvalidProgramAddress)
    } else if old_policy_program.key == new_policy_program.key {
        Err(LazorKitError::PolicyProgramsIdentical)
    } else {
        Ok(())
    }
}

/// Checks the two programs of a request.
pub fn check_policy_programs(
    old_policy_program: &AccountInfo,
    new_policy_program: &AccountInfo,
    registry: &PolicyProgramRegistry,
    wallet_data: &SmartWalletData,
) -> (r: Result<(), LazorKitError>)
    ensures
        r == check_policy_programs_spec(
            *old_policy_program,
            *new_policy_program,
            registry@,
            *wallet_data,
        ),
{
    match validate_program_executable(old_policy_program) {
        Err(e) => {
            return Err(e);
        },
        Ok(_) => {},
    }
    match validate_program_executable(new_policy_program) {
        Err(e) => {
            return Err(e);
        },
        Ok(_) => {},
    }
    match check_whitelist(registry, &old_policy_program.key) {
        Err(e) => {
            return Err(e);
        },
        Ok(_) => {},
    }
    match check_whitelist(registry, &new_policy_program.key) {
        Err(e) => {
            return Err(e);
        },
        Ok(_) => {},
    }
    proof {
        Pubkey::lemma_view_injective(wallet_data.policy_program, old_policy_program.key);
        Pubkey::lemma_view_injective(old_policy_program.key, new_policy_program.key);
    }
    if wallet_data.policy_program != old_policy_program.key {
        return Err(LazorKitError::InvalidProgramAddress);
    }
    if old_policy_program.key == new_policy_program.key {
        return Err(LazorKitError::PolicyProgramsIdentical);
    }
    Ok(())
}

/// Verdict on a request before its authorization is looked at.
pub open spec fn update_policy_preconditions(ctx: UpdatePolicy, args: UpdatePolicyArgs) -> Result<
    (),
    LazorKitError,
> {
    if args.validate_spec() is Err {
        args.validate_spec()
    } else if ctx.config.is_paused {
        Err(LazorKitError::ProgramPaused)
    } else if ctx.remaining_accounts@.len() > MAX_REMAINING_ACCOUNTS {
        Err(LazorKitError::TooManyRemainingAccounts)
    } else if check_policy_programs_spec(
        ctx.old_policy_program,
        ctx.new_policy_program,
        ctx.policy_program_registry@,
        ctx.smart_wallet_data,
    ) is Err {
        check_policy_programs_spec(
            ctx.old_policy_program,
            ctx.new_policy_program,
            ctx.policy_program_registry@,
            ctx.smart_wallet_data,
        )
    } else if validate_policy_data_spec(args.destroy_policy_data@) is Err {
        validate_policy_data_spec(args.destroy_policy_data@)
    } else {
        validate_policy_data_spec(args.init_policy_data@)
    }
}

/// The message that authorises the request, if one does.
pub open spec fn authorize_update_spec(
    ctx: UpdatePolicy,
    args: UpdatePolicyArgs,
    verify_instruction: Result<InstructionView, ProgramFault>,
    now: i64,
) -> Result<UpdatePolicyMessage, EngineError> {
    verify_authorization_spec::<UpdatePolicyMessage>(
        verify_instruction,
        ctx.wallet_device,
        ctx.smart_wallet.key,
        args.passkey_pubkey@,
        args.signature@,
        args.client_data_json_raw@,
        args.authenticator_data_raw@,
        ctx.smart_wallet_data.last_nonce,
        now,
    )
}

/// The transition involves the default policy program on one side.
pub open spec fn involves_default_policy(
    old_policy_program: Pubkey,
    new_policy_program: Pubkey,
    default_policy_program: Pubkey,
) -> bool {
    old_policy_program == default_policy_program || new_policy_program == default_policy_program
}

/// Verdict on an authorised request: both account sets and both
/// instruction data are the ones the challenge commits to, the data
/// are calls of `destroy` and `init_policy`, and the transition
/// involves the default policy program.
pub open spec fn update_policy_bindings(
    ctx: UpdatePolicy,
    args: UpdatePolicyArgs,
    msg: UpdatePolicyMessage,
) -> Result<(), LazorKitError> {
    if ctx.split_point(args) > ctx.remaining_accounts@.len() {
        Err(LazorKitError::AccountSliceOutOfBounds)
    } else if check_accounts_hash_spec(
        ctx.old_policy_program.key,
        ctx.destroy_accounts(args),
        msg.old_policy_accounts_hash@,
    ) is Err || check_accounts_hash_spec(
        ctx.new_policy_program.key,
        ctx.init_accounts(args),
        msg.new_policy_accounts_hash@,
    ) is Err {
        Err(LazorKitError::InvalidAccountData)
    } else if !has_discriminator(args.destroy_policy_data@, "destroy"@) {
        Err(LazorKitError::InvalidDestroyDiscriminator)
    } else if !has_discriminator(args.init_policy_data@, "init_policy"@) {
        Err(LazorKitError::InvalidInitPolicyDiscriminator)
    } else if check_data_hash_spec(args.destroy_policy_data@, msg.old_policy_data_hash@) is Err
        || check_data_hash_spec(args.init_policy_data@, msg.new_policy_data_hash@) is Err {
        Err(LazorKitError::InvalidInstructionData)
    } else if !involves_default_policy(
        ctx.old_policy_program.key,
        ctx.new_policy_program.key,
        ctx.config.default_policy_program,
    ) {
        Err(LazorKitError::NoDefaultPolicyProgram)
    } else {
        Ok(())
    }
}

/// The signer that stands for the device that authorised the request.
pub open spec fn update_policy_signer(ctx: UpdatePolicy, args: UpdatePolicyArgs) -> PdaSignerView {
    PdaSignerView {
        seeds: device_seeds(args.passkey_pubkey@, ctx.smart_wallet.key),
        bump: ctx.wallet_device.bump,
    }
}

/// What the runtime has to do for the request, or the reason the
/// request is refused.
pub open spec fn update_policy_spec(
    ctx: UpdatePolicy,
    args: UpdatePolicyArgs,
    verify_instruction: Result<InstructionView, ProgramFault>,
    now: i64,
) -> Result<UpdatePolicyPlanView, EngineError> {
    if update_policy_preconditions(ctx, args) is Err {
        Err(EngineError::Wallet(update_policy_preconditions(ctx, args)->Err_0))
    } else {
        match authorize_update_spec(ctx, args, verify_instruction, now) {
            Err(e) => Err(e),
            Ok(msg) => if update_policy_bindings(ctx, args, msg) is Err {
                Err(EngineError::Wallet(update_policy_bindings(ctx, args, msg)->Err_0))
            } else {
                match enrol_device_spec(
                    args.new_authenticator,
                    ctx.remaining_accounts@,
                    ctx.smart_wallet.key,
                ) {
                    Err(e) => Err(EngineError::Wallet(e)),
                    Ok(new_device) => match prepare_cpi_spec(
                        ctx.destroy_accounts(args),
                        args.destroy_policy_data@,
                        ctx.old_policy_program.key,
                        update_policy_signer(ctx, args),
                        Seq::empty(),
                    ) {
                        Err(e) => Err(EngineError::Wallet(e)),
                        Ok(destroy) => match prepare_cpi_spec(
                            ctx.init_accounts(args),
                            args.init_policy_data@,
                            ctx.new_policy_program.key,
                            update_policy_signer(ctx, args),
                            seq![ctx.payer.key],
                        ) {
                            Err(e) => Err(EngineError::Wallet(e)),
                            Ok(init) => Ok(UpdatePolicyPlanView { new_device, destroy, init }),
                        },
                    },
                }
            },
        }
    }
}

fn update_policy_precheck(ctx: &UpdatePolicy, args: &UpdatePolicyArgs) -> (r: Result<
    (),
    LazorKitError,
>)
    ensures
        r == update_policy_preconditions(*ctx, *args),
{
    match args.validate() {
        Err(e) => {
            return Err(e);
        },
        Ok(_) => {},
    }
    if ctx.config.is_paused {
        return Err(LazorKitError::ProgramPaused);
    }
    match validate_remaining_accounts(ctx.remaining_accounts.as_slice()) {
        Err(e) => {
            return Err(e);
        },
        Ok(_) => {},
    }
    match check_policy_programs(
        &ctx.old_policy_program,
        &ctx.new_policy_program,
        &ctx.policy_program_registry,
        &ctx.smart_wallet_data,
    ) {
        Err(e) => {
            return Err(e);
        },
        Ok(_) => {},
    }
    match validate_policy_data(args.destroy_policy_data.as_slice()) {
        Err(e) => {
            return Err(e);
        },
        Ok(_) => {},
    }
    validate_policy_data(args.init_policy_data.as_slice())
}

fn first_policy_account(args: &UpdatePolicyArgs) -> (start: usize)
    ensures
        start == reserved_accounts(args.new_authenticator),
{
    if args.new_authenticator.is_some() {
        1
    } else {
        0
    }
}

fn update_policy_bind(ctx: &UpdatePolicy, args: &UpdatePolicyArgs, msg: &UpdatePolicyMessage) -> (r:
    Result<(), LazorKitError>)
    ensures
        r == update_policy_bindings(*ctx, *args, *msg),
{
    let start = first_policy_account(args);
    let split: usize = start + args.split_index as usize;
    let total: usize = ctx.remaining_accounts.len();
    if split > total {
        return Err(LazorKitError::AccountSliceOutOfBounds);
    }
    let destroy_accounts = vstd::slice::slice_subrange(
        ctx.remaining_accounts.as_slice(),
        start,
        split,
    );
    let init_accounts = vstd::slice::slice_subrange(ctx.remaining_accounts.as_slice(), split, total);
    match check_accounts_hash(
        &ctx.old_policy_program.key,
        destroy_accounts,
        &msg.old_policy_accounts_hash,
    ) {
        Err(e) => {
            return Err(e);
        },
        Ok(_) => {},
    }
    match check_accounts_hash(
        &ctx.new_policy_program.key,
        init_accounts,
        &msg.new_policy_accounts_hash,
    ) {
        Err(e) => {
            return Err(e);
        },
        Ok(_) => {},
    }
    if !check_discriminator(args.destroy_policy_data.as_slice(), "destroy") {
        return Err(LazorKitError::InvalidDestroyDiscriminator);
    }
    if !check_discriminator(args.init_policy_data.as_slice(), "init_policy") {
        return Err(LazorKitError::InvalidInitPolicyDiscriminator);
    }
    match check_data_hash(args.destroy_policy_data.as_slice(), &msg.old_policy_data_hash) {
        Err(e) => {
            return Err(e);
        },
        Ok(_) => {},
    }
    match check_data_hash(args.init_policy_data.as_slice(), &msg.new_policy_data_hash) {
        Err(e) => {
            return Err(e);
        },
        Ok(_) => {},
    }
    let default_policy = ctx.config.default_policy_program;
    proof {
        Pubkey::lemma_view_injective(ctx.old_policy_program.key, default_policy);
        Pubkey::lemma_view_injective(ctx.new_policy_program.key, default_policy);
    }
    if !(ctx.old_policy_program.key == default_policy || ctx.new_policy_program.key
        == default_policy) {
        return Err(LazorKitError::NoDefaultPolicyProgram);
    }
    Ok(())
}

/// First step of updating the policy: authorises the request, checks
/// the two programs and every binding, and prepares the enrolment of
/// the new device and the two calls. Nothing is changed.
///
/// `now` is the runtime clock.
pub fn update_policy(
    ctx: &UpdatePolicy,
    args: &UpdatePolicyArgs,
    now: i64,
) -> (r: Result<UpdatePolicyPlan, EngineError>)
    ensures
        match update_policy_spec(*ctx, *args, instruction_at(ctx.ix_sysvar, args.verify_instruction_index), now) {
            Err(e) => r matches Err(got) && got == e,
            Ok(plan) => r matches Ok(got) && got@ == plan,
        },
{
    match update_policy_precheck(ctx, args) {
        Err(e) => {
            return Err(EngineError::Wallet(e));
        },
        Ok(_) => {},
    }
    let msg: UpdatePolicyMessage = match verify_authorization::<UpdatePolicyMessage>(
        &ctx.ix_sysvar,
        &ctx.wallet_device,
        ctx.smart_wallet.key,
        args.passkey_pubkey,
        args.signature.as_slice(),
        args.client_data_json_raw.as_slice(),
        args.authenticator_data_raw.as_slice(),
        args.verify_instruction_index,
        ctx.smart_wallet_data.last_nonce,
        now,
    ) {
        Err(e) => {
            return Err(e);
        },
        Ok(msg) => msg,
    };
    match update_policy_bind(ctx, args, &msg) {
        Err(e) => {
            return Err(EngineError::Wallet(e));
        },
        Ok(_) => {},
    }
    let new_device = match enrol_device(
        &args.new_authenticator,
        ctx.remaining_accounts.as_slice(),
        ctx.smart_wallet.key,
    ) {
        Err(e) => {
            return Err(EngineError::Wallet(e));
        },
        Ok(d) => d,
    };
    let start = first_policy_account(args);
    let split: usize = start + args.split_index as usize;
    let total: usize = ctx.remaining_accounts.len();
    let destroy_accounts = vstd::slice::slice_subrange(
        ctx.remaining_accounts.as_slice(),
        start,
        split,
    );
    let init_accounts = vstd::slice::slice_subrange(ctx.remaining_accounts.as_slice(), split, total);
    let none: Vec<Pubkey> = Vec::new();
    assert(none@ =~= Seq::<Pubkey>::empty());
    let destroy = match prepare_cpi(
        destroy_accounts,
        args.destroy_policy_data.as_slice(),
        &ctx.old_policy_program,
        get_pda_signer(&args.passkey_pubkey, ctx.smart_wallet.key, ctx.wallet_device.bump),
        none.as_slice(),
    ) {
        Err(e) => {
            return Err(EngineError::Wallet(e));
        },
        Ok(call) => call,
    };
    let mut allowed: Vec<Pubkey> = Vec::new();
    allowed.push(ctx.payer.key);
    assert(allowed@ =~= seq![ctx.payer.key]);
    match prepare_cpi(
        init_accounts,
        args.init_policy_data.as_slice(),
        &ctx.new_policy_program,
        get_pda_signer(&args.passkey_pubkey, ctx.smart_wallet.key, ctx.wallet_device.bump),
        allowed.as_slice(),
    ) {
        Err(e) => Err(EngineError::Wallet(e)),
        Ok(init) => Ok(UpdatePolicyPlan { new_device, destroy, init }),
    }
}

/// The call to make after the old policy has been destroyed: the one
/// that initialises the new policy, unless destroying failed.
pub open spec fn update_policy_init_spec(
    plan: UpdatePolicyPlanView,
    destroy_outcome: Result<(), ProgramFault>,
) -> Result<InvocationView, EngineError> {
    match destroy_outcome {
        Err(fault) => Err(EngineError::Program(fault)),
        Ok(_) => Ok(plan.init),
    }
}

/// Second step of updating the policy, after the call that destroys the
/// old policy: where that call failed, its fault is passed on and the
/// new policy is not initialised; else the call that initialises the
/// new policy is handed out.
///
/// `destroy_outcome` is how the call into the old policy program ended.
pub fn update_policy_init<'a>(
    plan: &'a UpdatePolicyPlan,
    destroy_outcome: &Result<(), ProgramFault>,
) -> (r: Result<&'a Invocation, EngineError>)
    ensures
        match update_policy_init_spec(plan@, *destroy_outcome) {
            Err(e) => r matches Err(got) && got == e,
            Ok(call) => r matches Ok(got) && got@ == call && *got == plan.init,
        },
{
    match destroy_outcome {
        Err(fault) => Err(EngineError::Program(*fault)),
        Ok(_) => Ok(&plan.init),
    }
}

/// What is left of the wallet once both calls have succeeded: it is
/// bound to the new policy program, and the bookkeeping is done.
pub open spec fn update_policy_finish_spec(
    ctx: UpdatePolicy,
    outcome: Result<(), ProgramFault>,
    rent_exempt_minimum: u64,
) -> Result<Settlement, EngineError> {
    match settle_after_spec(
        outcome,
        ctx.smart_wallet_data,
        ctx.smart_wallet,
        ctx.payer,
        ctx.config.execute_fee,
        rent_exempt_minimum,
    ) {
        Err(e) => Err(e),
        Ok(s) => Ok(
            Settlement {
                wallet_data: SmartWalletData {
                    policy_program: ctx.new_policy_program.key,
                    ..s.wallet_data
                },
                ..s
            },
        ),
    }
}

/// Last step of updating the policy, after the plan has been handed to
/// the runtime: where it failed, the fault is passed on; else the
/// wallet is bound to the new policy program, the nonce is bumped and
/// the fee collected. On failure nothing changes.
///
/// `outcome` is how the plan ended.
pub fn update_policy_finish(
    ctx: &mut UpdatePolicy,
    outcome: &Result<(), ProgramFault>,
    rent_exempt_minimum: u64,
) -> (r: Result<(), EngineError>)
    ensures
        match update_policy_finish_spec(*old(ctx), *outcome, rent_exempt_minimum) {
            Ok(s) => {
                &&& r is Ok
                &&& final(ctx).smart_wallet_data == s.wallet_data
                &&& final(ctx).smart_wallet == s.smart_wallet
                &&& final(ctx).payer == s.payer
            },
            Err(e) => {
                &&& r == Err::<(), EngineError>(e)
                &&& final(ctx).smart_wallet_data == old(ctx).smart_wallet_data
                &&& final(ctx).smart_wallet == old(ctx).smart_wallet
                &&& final(ctx).payer == old(ctx).payer
            },
        },
        final(ctx).remaining_accounts == old(ctx).remaining_accounts,
        final(ctx).wallet_device == old(ctx).wallet_device,
        final(ctx).policy_program_registry == old(ctx).policy_program_registry,
        final(ctx).old_policy_program == old(ctx).old_policy_program,
        final(ctx).new_policy_program == old(ctx).new_policy_program,
        final(ctx).config == old(ctx).config,
        final(ctx).ix_sysvar == old(ctx).ix_sysvar,
{
    let fee = ctx.config.execute_fee;
    match settle_after(
        outcome,
        &mut ctx.smart_wallet_data,
        &mut ctx.smart_wallet,
        &mut ctx.payer,
        fee,
        rent_exempt_minimum,
    ) {
        Err(e) => {
            return Err(e);
        },
        Ok(_) => {},
    }
    ctx.smart_wallet_data.policy_program = ctx.new_policy_program.key;
    Ok(())
}

} // verus!
