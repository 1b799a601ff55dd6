//! Execute a transaction on behalf of a wallet.
//!
//! The action runs in three steps, with the runtime in between:
//! [`execute_transaction`] authorises the request and checks every
//! binding, and hands back the call into the policy program; once that
//! call has succeeded, [`execute_transaction_dispatch`] clears the
//! action itself, a native transfer or a call into the target program;
//! once that is done, [`execute_transaction_finish`] bumps the nonce
//! and collects the fee.

use vstd::prelude::*;
use crate::account::{AccountInfo, InstructionView, InstructionsSysvar};
use crate::auth::{instruction_at, verify_authorization, verify_authorization_spec};
use crate::cpi::{prepare_cpi, prepare_cpi_spec, Invocation, InvocationView};
use crate::error::{EngineError, LazorKitError, ProgramFault};
use crate::hash::{accounts_hash, sha256_digest};
use crate::instructions::args::{Args, ExecuteTransactionArgs};
use crate::instructions::common::{
    check_accounts_hash, check_data_hash, check_discriminator, dispatch_spec,
    dispatch_wallet_action, has_discriminator, settle_after, settle_after_spec, Dispatch, Settlement,
    WalletAction,
};
use crate::message::ExecuteMessage;
use crate::pda::{device_seeds, get_pda_signer, PdaSignerView};
use crate::pubkey::Pubkey;
use crate::security::validation::{
    validate_cpi_data, validate_cpi_data_spec, validate_policy_data, validate_program_executable,
    validate_remaining_accounts,
};
use crate::security::{MAX_POLICY_DATA_SIZE, MAX_REMAINING_ACCOUNTS};
use crate::state::{
    check_whitelist, Config, PolicyProgramRegistry, SmartWalletData, WalletDevice,
};

verus! {

/// The accounts of `execute_transaction`.
#[derive(Clone, Debug)]
pub struct ExecuteTransaction {
    pub payer: AccountInfo,
    pub smart_wallet: AccountInfo,
    pub smart_wallet_data: SmartWalletData,
    pub wallet_device: WalletDevice,
    pub policy_program_registry: PolicyProgramRegistry,
    pub policy_program: AccountInfo,
    pub cpi_program: AccountInfo,
    pub config: Config,
    /// Accounts of the policy call, then accounts of the action.
    pub remaining_accounts: Vec<AccountInfo>,
    /// The instructions of the transaction.
    pub ix_sysvar: InstructionsSysvar,
}

impl ExecuteTransaction {
    /// The accounts handed to the policy program.
    pub open spec fn policy_accounts(&self, split_index: u16) -> Seq<AccountInfo> {
        self.remaining_accounts@.subrange(0, split_index as int)
    }

    /// The accounts of the action itself.
    pub open spec fn cpi_accounts(&self, split_index: u16) -> Seq<AccountInfo> {
        self.remaining_accounts@.subrange(
            split_index as int,
            self.remaining_accounts@.len() as int,
        )
    }
}

/// The message that authorises the request, if one does.
pub open spec fn authorize_execute_spec(
    ctx: ExecuteTransaction,
    args: ExecuteTransactionArgs,
    verify_instruction: Result<InstructionView, ProgramFault>,
    now: i64,
) -> Result<ExecuteMessage, EngineError> {
    verify_authorization_spec::<ExecuteMessage>(
        verify_instruction,
        ctx.wallet_device,
        ctx.smart_wallet.key,
        args.passkey_pubkey@,
        args.signature@,
        args.client_data_json_raw@,
        args.authenticator_data_raw@,
        ctx.smart_wallet_data.last_nonce,
        now,
    )
}

/// Verdict on the policy program: executable, registered, and the one
/// the wallet is bound to.
pub open spec fn check_policy_program_spec(
    policy_program: AccountInfo,
    registry: Seq<Pubkey>,
    wallet_data: SmartWalletData,
) -> Result<(), LazorKitError> {
    if !policy_program.executable {
        Err(LazorKitError::ProgramNotExecutable)
    } else if !registry.contains(policy_program.key) {
        Err(LazorKitError::PolicyProgramNotRegistered)
    } else if policy_program.key != wallet_data.policy_program {
        Err(LazorKitError::InvalidProgramAddress)
    } else {
        Ok(())
    }
}

/// Checks that the policy program is executable, registered, and the
/// one the wallet is bound to.
pub fn check_policy_program(
    policy_program: &AccountInfo,
    registry: &PolicyProgramRegistry,
    wallet_data: &SmartWalletData,
) -> (r: Result<(), LazorKitError>)
    ensures
        r == check_policy_program_spec(*policy_program, registry@, *wallet_data),
{
    match validate_program_executable(policy_program) {
        Err(e) => {
            return Err(e);
        },
        Ok(_) => {},
    }
    match check_whitelist(registry, &policy_program.key) {
        Err(e) => {
            return Err(e);
        },
        Ok(_) => {},
    }
    proof {
        Pubkey::lemma_view_injective(policy_program.key, wallet_data.policy_program);
    }
    if policy_program.key != wallet_data.policy_program {
        return Err(LazorKitError::InvalidProgramAddress);
    }
    Ok(())
}

/// Verdict on the policy half of a request: the data is a call of
/// `check_policy`, of bounded size, and data and accounts are the ones
/// the challenge commits to.
pub open spec fn check_policy_binding_spec(
    policy_program: Pubkey,
    policy_accounts: Seq<AccountInfo>,
    policy_data: Seq<u8>,
    msg: ExecuteMessage,
) -> Result<(), LazorKitError> {
    if !has_discriminator(policy_data, "check_policy"@) {
        Err(LazorKitError::InvalidCheckPolicyDiscriminator)
    } else if policy_data.len() > MAX_POLICY_DATA_SIZE {
        Err(LazorKitError::PolicyDataTooLarge)
    } else if sha256_digest(policy_data) != msg.policy_data_hash@ {
        Err(LazorKitError::InvalidInstructionData)
    } else if accounts_hash(policy_program, policy_accounts) != msg.policy_accounts_hash@ {
        Err(LazorKitError::InvalidAccountData)
    } else {
        Ok(())
    }
}

/// Checks the policy half of a request against the challenge.
pub fn check_policy_binding(
    policy_program: &Pubkey,
    policy_accounts: &[AccountInfo],
    policy_data: &[u8],
    msg: &ExecuteMessage,
) -> (r: Result<(), LazorKitError>)
    ensures
        r == check_policy_binding_spec(*policy_program, policy_accounts@, policy_data@, *msg),
{
    if !check_discriminator(policy_data, "check_policy") {
        return Err(LazorKitError::InvalidCheckPolicyDiscriminator);
    }
    match validate_policy_data(policy_data) {
        Err(e) => {
            return Err(e);
        },
        Ok(_) => {},
    }
    match check_data_hash(policy_data, &msg.policy_data_hash) {
        Err(e) => {
            return Err(e);
        },
        Ok(_) => {},
    }
    check_accounts_hash(policy_program, policy_accounts, &msg.policy_accounts_hash)
}

/// Verdict on the action half of a request: the data has between 1 and
/// 1024 bytes, and data and accounts are the ones the challenge commits
/// to.
pub open spec fn check_cpi_binding_spec(
    cpi_program: Pubkey,
    cpi_accounts: Seq<AccountInfo>,
    cpi_data: Seq<u8>,
    cpi_data_hash: Seq<u8>,
    cpi_accounts_hash: Seq<u8>,
) -> Result<(), LazorKitError> {
    if validate_cpi_data_spec(cpi_data) is Err {
        validate_cpi_data_spec(cpi_data)
    } else if sha256_digest(cpi_data) != cpi_data_hash {
        Err(LazorKitError::InvalidInstructionData)
    } else if accounts_hash(cpi_program, cpi_accounts) != cpi_accounts_hash {
        Err(LazorKitError::InvalidAccountData)
    } else {
        Ok(())
    }
}

/// Checks the action half of a request against two commitments.
pub fn check_cpi_binding(
    cpi_program: &Pubkey,
    cpi_accounts: &[AccountInfo],
    cpi_data: &[u8],
    cpi_data_hash: &[u8; 32],
    cpi_accounts_hash: &[u8; 32],
) -> (r: Result<(), LazorKitError>)
    ensures
        r == check_cpi_binding_spec(
            *cpi_program,
            cpi_accounts@,
            cpi_data@,
            cpi_data_hash@,
            cpi_accounts_hash@,
        ),
{
    match validate_cpi_data(cpi_data) {
        Err(e) => {
            return Err(e);
        },
        Ok(_) => {},
    }
    match check_data_hash(cpi_data, cpi_data_hash) {
        Err(e) => {
            return Err(e);
        },
        Ok(_) => {},
    }
    check_accounts_hash(cpi_program, cpi_accounts, cpi_accounts_hash)
}

/// Verdict on an authorised request: every precondition that does not
/// need the runtime, in the order it is checked.
pub open spec fn execute_transaction_checks(
    ctx: ExecuteTransaction,
    args: ExecuteTransactionArgs,
    msg: ExecuteMessage,
) -> Result<(), LazorKitError> {
    if check_policy_program_spec(
        ctx.policy_program,
        ctx.policy_program_registry@,
        ctx.smart_wallet_data,
    ) is Err {
        check_policy_program_spec(
            ctx.policy_program,
            ctx.policy_program_registry@,
            ctx.smart_wallet_data,
        )
    } else if args.split_index > ctx.remaining_accounts@.len() {
        Err(LazorKitError::AccountSliceOutOfBounds)
    } else if args.split_index == 0 {
        Err(LazorKitError::InsufficientPolicyAccounts)
    } else if check_policy_binding_spec(
        ctx.policy_program.key,
        ctx.policy_accounts(args.split_index),
        args.policy_data@,
        msg,
    ) is Err {
        check_policy_binding_spec(
            ctx.policy_program.key,
            ctx.policy_accounts(args.split_index),
            args.policy_data@,
            msg,
        )
    } else {
        check_cpi_binding_spec(
            ctx.cpi_program.key,
            ctx.cpi_accounts(args.split_index),
            args.cpi_data@,
            msg.cpi_data_hash@,
            msg.cpi_accounts_hash@,
        )
    }
}

/// The call into the policy program that an accepted request leads to,
/// or the reason the request is refused.
pub open spec fn execute_transaction_spec(
    ctx: ExecuteTransaction,
    args: ExecuteTransactionArgs,
    verify_instruction: Result<InstructionView, ProgramFault>,
    now: i64,
) -> Result<InvocationView, EngineError> {
    if args.validate_spec() is Err {
        Err(EngineError::Wallet(args.validate_spec()->Err_0))
    } else if ctx.config.is_paused {
        Err(EngineError::Wallet(LazorKitError::ProgramPaused))
    } else if ctx.remaining_accounts@.len() > MAX_REMAINING_ACCOUNTS {
        Err(EngineError::Wallet(LazorKitError::TooManyRemainingAccounts))
    } else {
        match authorize_execute_spec(ctx, args, verify_instruction, now) {
            Err(e) => Err(e),
            Ok(msg) => match execute_transaction_checks(ctx, args, msg) {
                Err(e) => Err(EngineError::Wallet(e)),
                Ok(_) => match prepare_cpi_spec(
                    ctx.policy_accounts(args.split_index),
                    args.policy_data@,
                    ctx.policy_program.key,
                    PdaSignerView {
                        seeds: device_seeds(args.passkey_pubkey@, ctx.smart_wallet.key),
                        bump: ctx.wallet_device.bump,
                    },
                    Seq::empty(),
                ) {
                    Err(e) => Err(EngineError::Wallet(e)),
                    Ok(call) => Ok(call),
                },
            },
        }
    }
}

/// The view of a result that holds an [`Invocation`].
pub open spec fn engine_invocation(r: Result<Invocation, EngineError>) -> Result<
    InvocationView,
    EngineError,
> {
    match r {
        Ok(call) => Ok(call@),
        Err(e) => Err(e),
    }
}

fn execute_transaction_check(
    ctx: &ExecuteTransaction,
    args: &ExecuteTransactionArgs,
    msg: &ExecuteMessage,
) -> (r: Result<(), LazorKitError>)
    ensures
        r == execute_transaction_checks(*ctx, *args, *msg),
{
    match check_policy_program(
        &ctx.policy_program,
        &ctx.policy_program_registry,
        &ctx.smart_wallet_data,
    ) {
        Err(e) => {
            return Err(e);
        },
        Ok(_) => {},
    }
    let split: usize = args.split_index as usize;
    let total: usize = ctx.remaining_accounts.len();
    if split > total {
        return Err(LazorKitError::AccountSliceOutOfBounds);
    }
    if split == 0 {
        return Err(LazorKitError::InsufficientPolicyAccounts);
    }
    let policy_accounts = vstd::slice::slice_subrange(ctx.remaining_accounts.as_slice(), 0, split);
    let cpi_accounts = vstd::slice::slice_subrange(ctx.remaining_accounts.as_slice(), split, total);
    match check_policy_binding(
        &ctx.policy_program.key,
        policy_accounts,
        args.policy_data.as_slice(),
        msg,
    ) {
        Err(e) => {
            return Err(e);
        },
        Ok(_) => {},
    }
    check_cpi_binding(
        &ctx.cpi_program.key,
        cpi_accounts,
        args.cpi_data.as_slice(),
        &msg.cpi_data_hash,
        &msg.cpi_accounts_hash,
    )
}

/// First step of executing a transaction: authorises the request,
/// checks the policy program and both bindings, and prepares the call
/// into the policy program. Nothing is changed.
///
/// `now` is the runtime clock.
pub fn execute_transaction(
    ctx: &ExecuteTransaction,
    args: &ExecuteTransactionArgs,
    now: i64,
) -> (r: Result<Invocation, EngineError>)
    ensures
        engine_invocation(r) == execute_transaction_spec(
            *ctx,
            *args,
            instruction_at(ctx.ix_sysvar, args.verify_instruction_index),
            now,
        ),
{
    match args.validate() {
        Err(e) => {
            return Err(EngineError::Wallet(e));
        },
        Ok(_) => {},
    }
    if ctx.config.is_paused {
        return Err(EngineError::Wallet(LazorKitError::ProgramPaused));
    }
    match validate_remaining_accounts(ctx.remaining_accounts.as_slice()) {
        Err(e) => {
            return Err(EngineError::Wallet(e));
        },
        Ok(_) => {},
    }
    let msg: ExecuteMessage = match verify_authorization::<ExecuteMessage>(
        &ctx.ix_sysvar,
        &ctx.wallet_device,
        ctx.smart_wallet.key,
        args.passkey_pubkey,
        args.signature.as_slice(),
        args.client_data_json_raw.as_slice(),
        args.authenticator_data_raw.as_slice(),
        args.verify_instruction_index,
        ctx.smart_wallet_data.last_nonce,
        now,
    ) {
        Err(e) => {
            return Err(e);
        },
        Ok(msg) => msg,
    };
    match execute_transaction_check(ctx, args, &msg) {
        Err(e) => {
            return Err(EngineError::Wallet(e));
        },
        Ok(_) => {},
    }
    let policy_signer = get_pda_signer(
        &args.passkey_pubkey,
        ctx.smart_wallet.key,
        ctx.wallet_device.bump,
    );
    let policy_accounts = vstd::slice::slice_subrange(
        ctx.remaining_accounts.as_slice(),
        0,
        args.split_index as usize,
    );
    let none: Vec<Pubkey> = Vec::new();
    assert(none@ =~= Seq::<Pubkey>::empty());
    match prepare_cpi(
        policy_accounts,
        args.policy_data.as_slice(),
        &ctx.policy_program,
        policy_signer,
        none.as_slice(),
    ) {
        Err(e) => Err(EngineError::Wallet(e)),
        Ok(call) => Ok(call),
    }
}

/// What the action of an accepted request does, once the policy
/// program has let it pass.
pub open spec fn execute_transaction_dispatch_spec(
    ctx: ExecuteTransaction,
    args: ExecuteTransactionArgs,
    policy_outcome: Result<(), ProgramFault>,
    rent_exempt_minimum: u64,
) -> Result<Dispatch, EngineError> {
    if policy_outcome is Err {
        Err(EngineError::Program(policy_outcome->Err_0))
    } else if args.split_index > ctx.remaining_accounts@.len() {
        Err(EngineError::Wallet(LazorKitError::AccountSliceOutOfBounds))
    } else {
        dispatch_spec(
            ctx.smart_wallet,
            ctx.smart_wallet_data,
            ctx.config.execute_fee,
            ctx.payer.key,
            ctx.cpi_program,
            ctx.remaining_accounts@,
            args.split_index as int,
            args.cpi_data@,
            rent_exempt_minimum,
        )
    }
}

/// Second step of executing a transaction, after the policy program
/// has been called: where the call failed, its fault is passed on; else
/// the action is cleared and, for a native transfer, the lamports are
/// moved. On failure nothing changes.
///
/// `policy_outcome` is how the call into the policy program ended;
/// `rent_exempt_minimum` is the balance the runtime asks an account
/// without data to keep.
pub fn execute_transaction_dispatch(
    ctx: &mut ExecuteTransaction,
    args: &ExecuteTransactionArgs,
    policy_outcome: &Result<(), ProgramFault>,
    rent_exempt_minimum: u64,
) -> (r: Result<WalletAction, EngineError>)
    ensures
        match execute_transaction_dispatch_spec(
            *old(ctx),
            *args,
            *policy_outcome,
            rent_exempt_minimum,
        ) {
            Ok(d) => {
                &&& r matches Ok(action)
                &&& action@ == d.action
                &&& final(ctx).smart_wallet == d.smart_wallet
                &&& final(ctx).remaining_accounts@ == d.remaining_accounts
                &&& final(ctx).payer == old(ctx).payer
                &&& final(ctx).smart_wallet_data == old(ctx).smart_wallet_data
                &&& final(ctx).wallet_device == old(ctx).wallet_device
                &&& final(ctx).policy_program_registry == old(ctx).policy_program_registry
                &&& final(ctx).policy_program == old(ctx).policy_program
                &&& final(ctx).cpi_program == old(ctx).cpi_program
                &&& final(ctx).config == old(ctx).config
                &&& final(ctx).ix_sysvar == old(ctx).ix_sysvar
            },
            Err(e) => {
                &&& r matches Err(got)
                &&& got == e
                &&& final(ctx).smart_wallet == old(ctx).smart_wallet
                &&& final(ctx).remaining_accounts@ == old(ctx).remaining_accounts@
                &&& final(ctx).payer == old(ctx).payer
                &&& final(ctx).smart_wallet_data == old(ctx).smart_wallet_data
                &&& final(ctx).wallet_device == old(ctx).wallet_device
                &&& final(ctx).policy_program_registry == old(ctx).policy_program_registry
                &&& final(ctx).policy_program == old(ctx).policy_program
                &&& final(ctx).cpi_program == old(ctx).cpi_program
                &&& final(ctx).config == old(ctx).config
                &&& final(ctx).ix_sysvar == old(ctx).ix_sysvar
            },
        },
{
    match policy_outcome {
        Err(fault) => {
            return Err(EngineError::Program(*fault));
        },
        Ok(_) => {},
    }
    let split: usize = args.split_index as usize;
    if split > ctx.remaining_accounts.len() {
        return Err(EngineError::Wallet(LazorKitError::AccountSliceOutOfBounds));
    }
    let fee = ctx.config.execute_fee;
    let payer = ctx.payer.key;
    let cpi_program = ctx.cpi_program;
    let wallet_data = ctx.smart_wallet_data;
    dispatch_wallet_action(
        &mut ctx.smart_wallet,
        &wallet_data,
        fee,
        &payer,
        &cpi_program,
        &mut ctx.remaining_accounts,
        split,
        args.cpi_data.as_slice(),
        rent_exempt_minimum,
    )
}

/// What is left of the wallet once the action is done.
pub open spec fn execute_transaction_finish_spec(
    ctx: ExecuteTransaction,
    outcome: Result<(), ProgramFault>,
    rent_exempt_minimum: u64,
) -> Result<Settlement, EngineError> {
    settle_after_spec(
        outcome,
        ctx.smart_wallet_data,
        ctx.smart_wallet,
        ctx.payer,
        ctx.config.execute_fee,
        rent_exempt_minimum,
    )
}

/// Last step of executing a transaction, after the action has been
/// handed to the runtime: where it failed, the fault is passed on; else
/// the nonce is bumped and the fee collected. On failure nothing
/// changes.
///
/// `outcome` is how the action ended.
pub fn execute_transaction_finish(
    ctx: &mut ExecuteTransaction,
    outcome: &Result<(), ProgramFault>,
    rent_exempt_minimum: u64,
) -> (r: Result<(), EngineError>)
    ensures
        match execute_transaction_finish_spec(*old(ctx), *outcome, rent_exempt_minimum) {
            Ok(s) => {
                &&& r is Ok
                &&& final(ctx).smart_wallet_data == s.wallet_data
                &&& final(ctx).smart_wallet == s.smart_wallet
                &&& final(ctx).payer == s.payer
            },
            Err(e) => {
                &&& r == Err::<(), EngineError>(e)
                &&& final(ctx).smart_wallet_data == old(ctx).smart_wallet_data
                &&& final(ctx).smart_wallet == old(ctx).smart_wallet
                &&& final(ctx).payer == old(ctx).payer
            },
        },
        final(ctx).remaining_accounts == old(ctx).remaining_accounts,
        final(ctx).wallet_device == old(ctx).wallet_device,
        final(ctx).policy_program_registry == old(ctx).policy_program_registry,
        final(ctx).policy_program == old(ctx).policy_program,
        final(ctx).cpi_program == old(ctx).cpi_program,
        final(ctx).config == old(ctx).config,
        final(ctx).ix_sysvar == old(ctx).ix_sysvar,
{
    let fee = ctx.config.execute_fee;
    match settle_after(
        outcome,
        &mut ctx.smart_wallet_data,
        &mut ctx.smart_wallet,
        &mut ctx.payer,
        fee,
        rent_exempt_minimum,
    ) {
        Err(e) => Err(e),
        Ok(_) => Ok(()),
    }
}

} // verus!
