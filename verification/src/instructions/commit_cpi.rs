//! Commit to a transaction now and execute it later.
//!
//! A commitment is authorised like an immediate transaction, policy
//! check included, but instead of the action itself a session record is
//! stored that holds the commitments of the action. Anyone may redeem
//! the session before it expires. [`commit_cpi`] authorises the request
//! and hands back the call into the policy program and the session to
//! store; [`commit_cpi_finish`] bumps the nonce and collects the fee.

use vstd::prelude::*;
use crate::account::{AccountInfo, InstructionView, InstructionsSysvar};
use crate::auth::{instruction_at, verify_authorization, verify_authorization_spec};
use crate::cpi::{prepare_cpi, prepare_cpi_spec, Invocation, InvocationView};
use crate::error::{EngineError, LazorKitError, ProgramFault};
use crate::instructions::args::{Args, CommitArgs};
use crate::instructions::common::{
    check_accounts_hash, check_accounts_hash_spec, check_data_hash, check_data_hash_spec,
    check_discriminator, has_discriminator, settle_after, settle_after_spec, Settlement,
};
use crate::message::ExecuteMessage;
use crate::pda::{
    derive_address, device_seeds, get_pda_signer, program_address, session_seed_list,
    session_seeds, PdaSignerView,
};
use crate::pubkey::{program_id, Pubkey};
use crate::security::validation::{
    validate_policy_data, validate_policy_data_spec, validate_program_executable,
    validate_remaining_accounts,
};
use crate::security::MAX_REMAINING_ACCOUNTS;
use crate::state::{
    check_whitelist, Config, PolicyProgramRegistry, SmartWalletData, TransactionSession,
    WalletDevice,
};

verus! {

/// The accounts of `commit_cpi`.
#[derive(Clone, Debug)]
pub struct CommitCpi {
    pub payer: AccountInfo,
    pub config: Config,
    pub smart_wallet: AccountInfo,
    pub smart_wallet_data: SmartWalletData,
    pub wallet_device: WalletDevice,
    pub policy_program_registry: PolicyProgramRegistry,
    pub policy_program: AccountInfo,
    /// The account that will hold the session.
    pub transaction_session: AccountInfo,
    /// The accounts of the policy call.
    pub remaining_accounts: Vec<AccountInfo>,
    /// The instructions of the transaction.
    pub ix_sysvar: InstructionsSysvar,
}

/// What the runtime has to do for an accepted commitment.
#[derive(Clone, Debug)]
pub struct CommitPlan {
    /// The call into the policy program.
    pub policy_call: Invocation,
    /// The session to store once the policy program has let it pass.
    pub session: TransactionSession,
}

/// Mathematical content of a [`CommitPlan`].
pub struct CommitPlanView {
    pub policy_call: InvocationView,
    pub session: TransactionSession,
}

impl View for CommitPlan {
    type V = CommitPlanView;

    open spec fn view(&self) -> CommitPlanView {
        CommitPlanView { policy_call: self.policy_call@, session: self.session }
    }
}

/// Verdict on a commitment before its authorization is looked at.
pub open spec fn commit_preconditions(ctx: CommitCpi, args: CommitArgs) -> Result<
    (),
    LazorKitError,
> {
    if args.validate_spec() is Err {
        args.validate_spec()
    } else if ctx.remaining_accounts@.len() > MAX_REMAINING_ACCOUNTS {
        Err(LazorKitError::TooManyRemainingAccounts)
    } else if validate_policy_data_spec(args.policy_data@) is Err {
        validate_policy_data_spec(args.policy_data@)
    } else if ctx.config.is_paused {
        Err(LazorKitError::ProgramPaused)
    } else {
        Ok(())
    }
}

/// The message that authorises the commitment, if one does.
pub open spec fn authorize_commit_spec(
    ctx: CommitCpi,
    args: CommitArgs,
    verify_instruction: Result<InstructionView, ProgramFault>,
    now: i64,
) -> Result<ExecuteMessage, EngineError> {
    verify_authorization_spec::<ExecuteMessage>(
        verify_instruction,
        ctx.wallet_device,
        ctx.smart_wallet.key,
        args.passkey_pubkey@,
        args.signature@,
        args.client_data_json_raw@,
        args.authenticator_data_raw@,
        ctx.smart_wallet_data.last_nonce,
        now,
    )
}

/// Verdict on an authorised commitment: the policy program is
/// executable, the wallet's own and registered; the policy data and
/// accounts are the ones the challenge commits to; the data is a call
/// of `check_policy`; and the session account is empty and lies at the
/// address derived from the wallet and its nonce.
pub open spec fn commit_bindings(ctx: CommitCpi, args: CommitArgs, msg: ExecuteMessage) -> Result<
    (),
    LazorKitError,
> {
    if !ctx.policy_program.executable {
        Err(LazorKitError::ProgramNotExecutable)
    } else if ctx.policy_program.key != ctx.smart_wallet_data.policy_program {
        Err(LazorKitError::InvalidProgramAddress)
    } else if !ctx.policy_program_registry@.contains(ctx.policy_program.key) {
        Err(LazorKitError::PolicyProgramNotRegistered)
    } else if check_data_hash_spec(args.policy_data@, msg.policy_data_hash@) is Err {
        Err(LazorKitError::InvalidInstructionData)
    } else if check_accounts_hash_spec(
        ctx.policy_program.key,
        ctx.remaining_accounts@,
        msg.policy_accounts_hash@,
    ) is Err {
        Err(LazorKitError::InvalidAccountData)
    } else if !has_discriminator(args.policy_data@, "check_policy"@) {
        Err(LazorKitError::InvalidCheckPolicyDiscriminator)
    } else if !ctx.transaction_session.data_is_empty {
        Err(LazorKitError::AccountAlreadyInitialized)
    } else {
        match program_address(
            session_seeds(ctx.smart_wallet.key, ctx.smart_wallet_data.last_nonce),
            program_id(),
        ) {
            None => Err(LazorKitError::InvalidPDADerivation),
            Some((address, _)) => if address != ctx.transaction_session.key {
                Err(LazorKitError::InvalidPDADerivation)
            } else {
                Ok(())
            },
        }
    }
}

/// The session an authorised commitment stores: it belongs to the
/// wallet, holds the commitments of the action as the challenge gives
/// them and the nonce that authorised it, and refunds the payer.
pub open spec fn session_spec(ctx: CommitCpi, args: CommitArgs, msg: ExecuteMessage) -> TransactionSession {
    TransactionSession {
        owner_wallet: ctx.smart_wallet.key,
        data_hash: msg.cpi_data_hash,
        accounts_hash: msg.cpi_accounts_hash,
        authorized_nonce: ctx.smart_wallet_data.last_nonce,
        expires_at: args.expires_at,
        rent_refund_to: ctx.payer.key,
    }
}

/// What the runtime has to do for the commitment, or the reason the
/// commitment is refused.
pub open spec fn commit_cpi_spec(
    ctx: CommitCpi,
    args: CommitArgs,
    verify_instruction: Result<InstructionView, ProgramFault>,
    now: i64,
) -> Result<CommitPlanView, EngineError> {
    if commit_preconditions(ctx, args) is Err {
        Err(EngineError::Wallet(commit_preconditions(ctx, args)->Err_0))
    } else {
        match authorize_commit_spec(ctx, args, verify_instruction, now) {
            Err(e) => Err(e),
            Ok(msg) => if commit_bindings(ctx, args, msg) is Err {
                Err(EngineError::Wallet(commit_bindings(ctx, args, msg)->Err_0))
            } else {
                match prepare_cpi_spec(
                    ctx.remaining_accounts@,
                    args.policy_data@,
                    ctx.policy_program.key,
                    PdaSignerView {
                        seeds: device_seeds(args.passkey_pubkey@, ctx.smart_wallet.key),
                        bump: ctx.wallet_device.bump,
                    },
                    Seq::empty(),
                ) {
                    Err(e) => Err(EngineError::Wallet(e)),
                    Ok(policy_call) => Ok(
                        CommitPlanView { policy_call, session: session_spec(ctx, args, msg) },
                    ),
                }
            },
        }
    }
}

fn commit_precheck(ctx: &CommitCpi, args: &CommitArgs) -> (r: Result<(), LazorKitError>)
    ensures
        r == commit_preconditions(*ctx, *args),
{
    match args.validate() {
        Err(e) => {
            return Err(e);
        },
        Ok(_) => {},
    }
    match validate_remaining_accounts(ctx.remaining_accounts.as_slice()) {
        Err(e) => {
            return Err(e);
        },
        Ok(_) => {},
    }
    match validate_policy_data(args.policy_data.as_slice()) {
        Err(e) => {
            return Err(e);
        },
        Ok(_) => {},
    }
    if ctx.config.is_paused {
        return Err(LazorKitError::ProgramPaused);
    }
    Ok(())
}

fn commit_bind(ctx: &CommitCpi, args: &CommitArgs, msg: &ExecuteMessage) -> (r: Result<
    (),
    LazorKitError,
>)
    ensures
        r == commit_bindings(*ctx, *args, *msg),
{
    match validate_program_executable(&ctx.policy_program) {
        Err(e) => {
            return Err(e);
        },
        Ok(_) => {},
    }
    proof {
        Pubkey::lemma_view_injective(ctx.policy_program.key, ctx.smart_wallet_data.policy_program);
    }
    if ctx.policy_program.key != ctx.smart_wallet_data.policy_program {
        return Err(LazorKitError::InvalidProgramAddress);
    }
    match check_whitelist(&ctx.policy_program_registry, &ctx.policy_program.key) {
        Err(e) => {
            return Err(e);
        },
        Ok(_) => {},
    }
    match check_data_hash(args.policy_data.as_slice(), &msg.policy_data_hash) {
        Err(e) => {
            return Err(e);
        },
        Ok(_) => {},
    }
    match check_accounts_hash(
        &ctx.policy_program.key,
        ctx.remaining_accounts.as_slice(),
        &msg.policy_accounts_hash,
    ) {
        Err(e) => {
            return Err(e);
        },
        Ok(_) => {},
    }
    if !check_discriminator(args.policy_data.as_slice(), "check_policy") {
        return Err(LazorKitError::InvalidCheckPolicyDiscriminator);
    }
    if !ctx.transaction_session.data_is_empty {
        return Err(LazorKitError::AccountAlreadyInitialized);
    }
    let seeds = session_seed_list(ctx.smart_wallet.key, ctx.smart_wallet_data.last_nonce);
    let id = program_id();
    match derive_address(&seeds, &id) {
        None => Err(LazorKitError::InvalidPDADerivation),
        Some((address, _)) => {
            proof {
                Pubkey::lemma_view_injective(address, ctx.transaction_session.key);
            }
            if address != ctx.transaction_session.key {
                Err(LazorKitError::InvalidPDADerivation)
            } else {
                Ok(())
            }
        },
    }
}

/// First step of a commitment: authorises the request, checks the
/// policy binding and the session account, and prepares the call into
/// the policy program and the session to store. Nothing is changed.
///
/// `now` is the runtime clock.
pub fn commit_cpi(
    ctx: &CommitCpi,
    args: &CommitArgs,
    now: i64,
) -> (r: Result<CommitPlan, EngineError>)
    ensures
        match commit_cpi_spec(*ctx, *args, instruction_at(ctx.ix_sysvar, args.verify_instruction_index), now) {
            Err(e) => r matches Err(got) && got == e,
            Ok(plan) => r matches Ok(got) && got@ == plan,
        },
{
    match commit_precheck(ctx, args) {
        Err(e) => {
            return Err(EngineError::Wallet(e));
        },
        Ok(_) => {},
    }
    let msg: ExecuteMessage = match verify_authorization::<ExecuteMessage>(
        &ctx.ix_sysvar,
        &ctx.wallet_device,
        ctx.smart_wallet.key,
        args.passkey_pubkey,
        args.signature.as_slice(),
        args.client_data_json_raw.as_slice(),
        args.authenticator_data_raw.as_slice(),
        args.verify_instruction_index,
        ctx.smart_wallet_data.last_nonce,
        now,
    ) {
        Err(e) => {
            return Err(e);
        },
        Ok(msg) => msg,
    };
    match commit_bind(ctx, args, &msg) {
        Err(e) => {
            return Err(EngineError::Wallet(e));
        },
        Ok(_) => {},
    }
    let none: Vec<Pubkey> = Vec::new();
    assert(none@ =~= Seq::<Pubkey>::empty());
    let policy_call = match prepare_cpi(
        ctx.remaining_accounts.as_slice(),
        args.policy_data.as_slice(),
        &ctx.policy_program,
        get_pda_signer(&args.passkey_pubkey, ctx.smart_wallet.key, ctx.wallet_device.bump),
        none.as_slice(),
    ) {
        Err(e) => {
            return Err(EngineError::Wallet(e));
        },
        Ok(call) => call,
    };
    let session = TransactionSession {
        owner_wallet: ctx.smart_wallet.key,
        data_hash: msg.cpi_data_hash,
        accounts_hash: msg.cpi_accounts_hash,
        authorized_nonce: ctx.smart_wallet_data.last_nonce,
        expires_at: args.expires_at,
        rent_refund_to: ctx.payer.key,
    };
    Ok(CommitPlan { policy_call, session })
}

/// What is left of the wallet once the session is stored.
pub open spec fn commit_cpi_finish_spec(
    ctx: CommitCpi,
    outcome: Result<(), ProgramFault>,
    rent_exempt_minimum: u64,
) -> Result<Settlement, EngineError> {
    settle_after_spec(
        outcome,
        ctx.smart_wallet_data,
        ctx.smart_wallet,
        ctx.payer,
        ctx.config.execute_fee,
        rent_exempt_minimum,
    )
}

/// Last step of a commitment, after the plan has been handed to the
/// runtime: where it failed, the fault is passed on; else the nonce is
/// bumped and the fee collected. On failure nothing changes.
///
/// `outcome` is how the plan ended.
pub fn commit_cpi_finish(
    ctx: &mut CommitCpi,
    outcome: &Result<(), ProgramFault>,
    rent_exempt_minimum: u64,
) -> (r: Result<(), EngineError>)
    ensures
        match commit_cpi_finish_spec(*old(ctx), *outcome, rent_exempt_minimum) {
            Ok(s) => {
                &&& r is Ok
                &&& final(ctx).smart_wallet_data == s.wallet_data
                &&& final(ctx).smart_wallet == s.smart_wallet
                &&& final(ctx).payer == s.payer
            },
            Err(e) => {
                &&& r == Err::<(), EngineError>(e)
                &&& final(ctx).smart_wallet_data == old(ctx).smart_wallet_data
                &&& final(ctx).smart_wallet == old(ctx).smart_wallet
                &&& final(ctx).payer == old(ctx).payer
            },
        },
        final(ctx).remaining_accounts == old(ctx).remaining_accounts,
        final(ctx).wallet_device == old(ctx).wallet_device,
        final(ctx).policy_program_registry == old(ctx).policy_program_registry,
        final(ctx).policy_program == old(ctx).policy_program,
        final(ctx).transaction_session == old(ctx).transaction_session,
        final(ctx).config == old(ctx).config,
        final(ctx).ix_sysvar == old(ctx).ix_sysvar,
{
    let fee = ctx.config.execute_fee;
    match settle_after(
        outcome,
        &mut ctx.smart_wallet_data,
        &mut ctx.smart_wallet,
        &mut ctx.payer,
        fee,
        rent_exempt_minimum,
    ) {
        Err(e) => Err(e),
        Ok(_) => Ok(()),
    }
}

} // verus!
