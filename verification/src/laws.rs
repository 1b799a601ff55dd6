//! Properties of the engine as a whole, proved from the specifications
//! of its entry points.

use vstd::prelude::*;
use crate::account::{AccountInfo, InstructionView};
use crate::auth::{signed_message, verify_authorization_spec};
use crate::cpi::{prepare_cpi_spec, InvocationView};
use crate::error::{EngineError, LazorKitError, ProgramFault};
use crate::hash::{
    accounts_hash, accounts_preimage, lemma_accounts_preimage_injective, sha256_digest,
};
use crate::instructions::args::{
    CommitArgs, ExecuteTransactionArgs, InvokePolicyArgs, UpdatePolicyArgs,
};
use crate::instructions::commit_cpi::{
    authorize_commit_spec, commit_cpi_finish_spec, commit_cpi_spec, CommitCpi,
};
use crate::instructions::args::Args;
use crate::instructions::common::{dispatch_spec, has_discriminator, settle_spec};
use crate::instructions::execute_committed::{execute_committed_spec, ExecuteCommitted};
use crate::instructions::execute_transaction::{
    authorize_execute_spec, check_policy_program_spec, execute_transaction_dispatch_spec,
    execute_transaction_finish_spec, execute_transaction_spec, ExecuteTransaction,
};
use crate::instructions::invoke_policy::{
    authorize_invoke_spec, invoke_policy_accounts, invoke_policy_spec, InvokePolicy,
};
use crate::instructions::update_policy::{
    authorize_update_spec, involves_default_policy, update_policy_finish_spec,
    update_policy_preconditions, update_policy_spec, UpdatePolicy, UpdatePolicyPlanView,
};
use crate::security::{MAX_POLICY_DATA_SIZE, MAX_REMAINING_ACCOUNTS};
use crate::message::{HasHeader, Message};
use crate::instructions::args::CreateSmartWalletArgs;
use crate::instructions::create_smart_wallet::{create_smart_wallet_spec, CreateSmartWallet};
use crate::pda::{program_address, wallet_seeds, PdaSignerView};
use crate::pubkey::{program_id, secp256r1_program_id, system_program_id, Pubkey};
use crate::secp256r1::verify_secp256r1_spec;
use crate::state::{SmartWalletData, WalletDevice};

verus! {

/// An authorised message carries the wallet's current nonce, and its
/// timestamp lies within thirty seconds of the runtime clock.
pub proof fn lemma_authorized_message_is_current<M: Message>(
    verify_instruction: Result<InstructionView, ProgramFault>,
    device: WalletDevice,
    smart_wallet_key: Pubkey,
    passkey_pubkey: Seq<u8>,
    signature: Seq<u8>,
    client_data_json: Seq<u8>,
    authenticator_data: Seq<u8>,
    last_nonce: u64,
    now: i64,
)
    requires
        verify_authorization_spec::<M>(
            verify_instruction,
            device,
            smart_wallet_key,
            passkey_pubkey,
            signature,
            client_data_json,
            authenticator_data,
            last_nonce,
            now,
        ) is Ok,
    ensures
        ({
            let m = verify_authorization_spec::<M>(
                verify_instruction,
                device,
                smart_wallet_key,
                passkey_pubkey,
                signature,
                client_data_json,
                authenticator_data,
                last_nonce,
                now,
            )->Ok_0;
            &&& m.spec_header().nonce == last_nonce
            &&& -30 <= m.spec_header().current_timestamp - now <= 30
        }),
{
}

/// An authorization rests on one verification record: the instruction
/// found at the declared index is addressed to the secp256r1
/// precompile, names no account, and holds exactly the passkey of the
/// device, the signature offered, and the message
/// `authenticatorData ‖ SHA-256(clientDataJSON)`. The passkey claimed
/// is the one of the device, and the device belongs to the wallet.
pub proof fn lemma_authorization_binds_signature<M: Message>(
    verify_instruction: Result<InstructionView, ProgramFault>,
    device: WalletDevice,
    smart_wallet_key: Pubkey,
    passkey_pubkey: Seq<u8>,
    signature: Seq<u8>,
    client_data_json: Seq<u8>,
    authenticator_data: Seq<u8>,
    last_nonce: u64,
    now: i64,
)
    requires
        verify_authorization_spec::<M>(
            verify_instruction,
            device,
            smart_wallet_key,
            passkey_pubkey,
            signature,
            client_data_json,
            authenticator_data,
            last_nonce,
            now,
        ) is Ok,
    ensures
        device.passkey_pubkey@ == passkey_pubkey,
        device.smart_wallet == smart_wallet_key,
        verify_instruction matches Ok(ix) && {
            &&& ix.program_id == secp256r1_program_id()
            &&& ix.accounts.len() == 0
            &&& ix.data.len() == 113 + signed_message(authenticator_data, client_data_json).len()
            &&& ix.data.subrange(16, 49) == passkey_pubkey
            &&& ix.data.subrange(49, 113) == signature
            &&& ix.data.subrange(113, ix.data.len() as int) == signed_message(
                authenticator_data,
                client_data_json,
            )
        },
{
    let ix = verify_instruction->Ok_0;
    let message = signed_message(authenticator_data, client_data_json);
    assert(verify_secp256r1_spec(ix, device.passkey_pubkey@, message, signature) is Ok);
    assert(message.len() == ix.data.len() - 113);
}

/// Changing the passkey, the signature, `authenticatorData`, or
/// `clientDataJSON` in a way that changes the signed message, while
/// the verification record stays the same, turns an accepted request
/// into a refused one.
pub proof fn lemma_changed_signature_is_rejected<M: Message>(
    verify_instruction: Result<InstructionView, ProgramFault>,
    device: WalletDevice,
    smart_wallet_key: Pubkey,
    passkey_pubkey: Seq<u8>,
    signature: Seq<u8>,
    client_data_json: Seq<u8>,
    authenticator_data: Seq<u8>,
    other_device: WalletDevice,
    other_passkey_pubkey: Seq<u8>,
    other_signature: Seq<u8>,
    other_client_data_json: Seq<u8>,
    other_authenticator_data: Seq<u8>,
    last_nonce: u64,
    now: i64,
)
    requires
        verify_authorization_spec::<M>(
            verify_instruction,
            device,
            smart_wallet_key,
            passkey_pubkey,
            signature,
            client_data_json,
            authenticator_data,
            last_nonce,
            now,
        ) is Ok,
        other_passkey_pubkey != passkey_pubkey || other_signature != signature || signed_message(
            other_authenticator_data,
            other_client_data_json,
        ) != signed_message(authenticator_data, client_data_json),
    ensures
        verify_authorization_spec::<M>(
            verify_instruction,
            other_device,
            smart_wallet_key,
            other_passkey_pubkey,
            other_signature,
            other_client_data_json,
            other_authenticator_data,
            last_nonce,
            now,
        ) is Err,
{
}

/// A request whose verification record is not addressed to the
/// secp256r1 precompile, or could not be found at the declared index,
/// is refused.
pub proof fn lemma_foreign_record_is_rejected<M: Message>(
    verify_instruction: Result<InstructionView, ProgramFault>,
    device: WalletDevice,
    smart_wallet_key: Pubkey,
    passkey_pubkey: Seq<u8>,
    signature: Seq<u8>,
    client_data_json: Seq<u8>,
    authenticator_data: Seq<u8>,
    last_nonce: u64,
    now: i64,
)
    requires
        verify_instruction matches Ok(ix) ==> ix.program_id != secp256r1_program_id(),
    ensures
        verify_authorization_spec::<M>(
            verify_instruction,
            device,
            smart_wallet_key,
            passkey_pubkey,
            signature,
            client_data_json,
            authenticator_data,
            last_nonce,
            now,
        ) is Err,
{
}

/// The bookkeeping after an action raises the nonce by exactly one and
/// leaves the wallet's identifier, policy program and bump seed alone.
pub proof fn lemma_settlement_bumps_nonce(
    wallet_data: SmartWalletData,
    smart_wallet: AccountInfo,
    payer: AccountInfo,
    execute_fee: u64,
    rent_exempt_minimum: u64,
)
    requires
        settle_spec(wallet_data, smart_wallet, payer, execute_fee, rent_exempt_minimum) is Ok,
    ensures
        ({
            let s = settle_spec(
                wallet_data,
                smart_wallet,
                payer,
                execute_fee,
                rent_exempt_minimum,
            )->Ok_0;
            &&& s.wallet_data.last_nonce == wallet_data.last_nonce + 1
            &&& s.wallet_data.id == wallet_data.id
            &&& s.wallet_data.policy_program == wallet_data.policy_program
            &&& s.wallet_data.bump == wallet_data.bump
            &&& s.smart_wallet.lamports + s.payer.lamports == smart_wallet.lamports
                + payer.lamports
            &&& execute_fee > 0 ==> s.smart_wallet.lamports == smart_wallet.lamports
                - execute_fee && s.smart_wallet.lamports >= rent_exempt_minimum
        }),
{
}

/// A nonce authorises one action only. Where a message was authorised
/// against a wallet and the action was completed, every message that is
/// authorised against the wallet afterwards carries another nonce; so
/// two transactions that carry the same nonce cannot both complete.
pub proof fn lemma_nonce_is_single_use<M1: Message, M2: Message>(
    wallet_data: SmartWalletData,
    smart_wallet: AccountInfo,
    payer: AccountInfo,
    execute_fee: u64,
    rent_exempt_minimum: u64,
    first_instruction: Result<InstructionView, ProgramFault>,
    first_device: WalletDevice,
    first_passkey: Seq<u8>,
    first_signature: Seq<u8>,
    first_client_data: Seq<u8>,
    first_authenticator_data: Seq<u8>,
    first_now: i64,
    second_instruction: Result<InstructionView, ProgramFault>,
    second_device: WalletDevice,
    second_passkey: Seq<u8>,
    second_signature: Seq<u8>,
    second_client_data: Seq<u8>,
    second_authenticator_data: Seq<u8>,
    second_now: i64,
)
    requires
        verify_authorization_spec::<M1>(
            first_instruction,
            first_device,
            smart_wallet.key,
            first_passkey,
            first_signature,
            first_client_data,
            first_authenticator_data,
            wallet_data.last_nonce,
            first_now,
        ) is Ok,
        settle_spec(wallet_data, smart_wallet, payer, execute_fee, rent_exempt_minimum) is Ok,
        verify_authorization_spec::<M2>(
            second_instruction,
            second_device,
            smart_wallet.key,
            second_passkey,
            second_signature,
            second_client_data,
            second_authenticator_data,
            settle_spec(
                wallet_data,
                smart_wallet,
                payer,
                execute_fee,
                rent_exempt_minimum,
            )->Ok_0.wallet_data.last_nonce,
            second_now,
        ) is Ok,
    ensures
        verify_authorization_spec::<M2>(
            second_instruction,
            second_device,
            smart_wallet.key,
            second_passkey,
            second_signature,
            second_client_data,
            second_authenticator_data,
            settle_spec(
                wallet_data,
                smart_wallet,
                payer,
                execute_fee,
                rent_exempt_minimum,
            )->Ok_0.wallet_data.last_nonce,
            second_now,
        )->Ok_0.spec_header().nonce == verify_authorization_spec::<M1>(
            first_instruction,
            first_device,
            smart_wallet.key,
            first_passkey,
            first_signature,
            first_client_data,
            first_authenticator_data,
            wallet_data.last_nonce,
            first_now,
        )->Ok_0.spec_header().nonce + 1,
{
}

/// A request that is replayed word for word after it has completed is
/// refused: its challenge still carries the nonce that was consumed.
pub proof fn lemma_replay_is_rejected(
    ctx: ExecuteTransaction,
    args: ExecuteTransactionArgs,
    verify_instruction: Result<InstructionView, ProgramFault>,
    now: i64,
    later: ExecuteTransaction,
    later_now: i64,
)
    requires
        execute_transaction_spec(ctx, args, verify_instruction, now) is Ok,
        later.smart_wallet_data.last_nonce == ctx.smart_wallet_data.last_nonce + 1,
    ensures
        execute_transaction_spec(later, args, verify_instruction, later_now) is Err,
{
}

/// An accepted transaction is bound to its challenge: the digest of
/// the policy data and the commitment to the policy program and its
/// accounts, and likewise those of the action, are the ones the
/// authorised message carries.
pub proof fn lemma_execute_transaction_is_bound(
    ctx: ExecuteTransaction,
    args: ExecuteTransactionArgs,
    verify_instruction: Result<InstructionView, ProgramFault>,
    now: i64,
)
    requires
        execute_transaction_spec(ctx, args, verify_instruction, now) is Ok,
    ensures
        authorize_execute_spec(ctx, args, verify_instruction, now) matches Ok(msg) && {
            &&& sha256_digest(args.policy_data@) == msg.policy_data_hash@
            &&& accounts_hash(ctx.policy_program.key, ctx.policy_accounts(args.split_index))
                == msg.policy_accounts_hash@
            &&& sha256_digest(args.cpi_data@) == msg.cpi_data_hash@
            &&& accounts_hash(ctx.cpi_program.key, ctx.cpi_accounts(args.split_index))
                == msg.cpi_accounts_hash@
            &&& msg.nonce == ctx.smart_wallet_data.last_nonce
        },
{
}

/// Instruction data with another digest than the data of an accepted
/// transaction is refused in its place, for the policy call and for the
/// action alike.
pub proof fn lemma_tampered_data_is_rejected(
    ctx: ExecuteTransaction,
    args: ExecuteTransactionArgs,
    tampered: ExecuteTransactionArgs,
    verify_instruction: Result<InstructionView, ProgramFault>,
    now: i64,
)
    requires
        execute_transaction_spec(ctx, args, verify_instruction, now) is Ok,
        tampered.passkey_pubkey == args.passkey_pubkey,
        tampered.signature@ == args.signature@,
        tampered.client_data_json_raw@ == args.client_data_json_raw@,
        tampered.authenticator_data_raw@ == args.authenticator_data_raw@,
        sha256_digest(tampered.policy_data@) != sha256_digest(args.policy_data@) || sha256_digest(
            tampered.cpi_data@,
        ) != sha256_digest(args.cpi_data@),
    ensures
        execute_transaction_spec(ctx, tampered, verify_instruction, now) is Err,
{
}

/// Accounts with another commitment than the accounts of an accepted
/// transaction are refused in their place.
pub proof fn lemma_tampered_accounts_are_rejected(
    ctx: ExecuteTransaction,
    tampered: ExecuteTransaction,
    args: ExecuteTransactionArgs,
    verify_instruction: Result<InstructionView, ProgramFault>,
    now: i64,
)
    requires
        execute_transaction_spec(ctx, args, verify_instruction, now) is Ok,
        tampered.wallet_device == ctx.wallet_device,
        tampered.smart_wallet.key == ctx.smart_wallet.key,
        tampered.smart_wallet_data.last_nonce == ctx.smart_wallet_data.last_nonce,
        accounts_hash(tampered.policy_program.key, tampered.policy_accounts(args.split_index))
            != accounts_hash(ctx.policy_program.key, ctx.policy_accounts(args.split_index))
            || accounts_hash(tampered.cpi_program.key, tampered.cpi_accounts(args.split_index))
            != accounts_hash(ctx.cpi_program.key, ctx.cpi_accounts(args.split_index)),
    ensures
        execute_transaction_spec(tampered, args, verify_instruction, now) is Err,
{
}

/// Flipping the `is_writable` flag of one account, or its `is_signer`
/// flag, changes the byte string the commitment is computed over.
pub proof fn lemma_flipped_flag_changes_preimage(
    program: Pubkey,
    accounts: Seq<AccountInfo>,
    index: int,
    flipped: AccountInfo,
)
    requires
        0 <= index < accounts.len(),
        flipped.is_writable != accounts[index].is_writable || flipped.is_signer
            != accounts[index].is_signer,
    ensures
        accounts_preimage(program, accounts.update(index, flipped)) != accounts_preimage(
            program,
            accounts,
        ),
{
    let changed = accounts.update(index, flipped);
    if accounts_preimage(program, changed) == accounts_preimage(program, accounts) {
        lemma_accounts_preimage_injective(program, changed, program, accounts);
        assert(changed[index] == flipped);
    }
}

/// A change of policy that involves the default policy program on
/// neither side is refused.
pub proof fn lemma_update_needs_default_policy(
    ctx: UpdatePolicy,
    args: UpdatePolicyArgs,
    verify_instruction: Result<InstructionView, ProgramFault>,
    now: i64,
)
    requires
        ctx.old_policy_program.key != ctx.config.default_policy_program,
        ctx.new_policy_program.key != ctx.config.default_policy_program,
    ensures
        update_policy_spec(ctx, args, verify_instruction, now) is Err,
{
}

/// An accepted change of policy leaves the wallet on the new program,
/// which is registered, executable, and differs from the old one.
pub proof fn lemma_update_installs_new_policy(
    ctx: UpdatePolicy,
    args: UpdatePolicyArgs,
    verify_instruction: Result<InstructionView, ProgramFault>,
    now: i64,
    rent_exempt_minimum: u64,
)
    requires
        update_policy_spec(ctx, args, verify_instruction, now) is Ok,
        update_policy_finish_spec(ctx, Ok(()), rent_exempt_minimum) is Ok,
    ensures
        ({
            let s = update_policy_finish_spec(ctx, Ok(()), rent_exempt_minimum)->Ok_0;
            &&& s.wallet_data.policy_program == ctx.new_policy_program.key
            &&& s.wallet_data.policy_program != ctx.smart_wallet_data.policy_program
            &&& s.wallet_data.last_nonce == ctx.smart_wallet_data.last_nonce + 1
            &&& ctx.policy_program_registry@.contains(s.wallet_data.policy_program)
            &&& ctx.new_policy_program.executable
            &&& involves_default_policy(
                ctx.old_policy_program.key,
                ctx.new_policy_program.key,
                ctx.config.default_policy_program,
            )
        }),
{
}

/// The engine never prepares a call into itself: such a call is
/// refused as reentrant, whatever the accounts, the data and the
/// signer, and an action aimed at this program is never cleared.
pub proof fn lemma_reentrancy_is_rejected(
    accounts: Seq<AccountInfo>,
    data: Seq<u8>,
    signer: PdaSignerView,
    allowed_signers: Seq<Pubkey>,
    smart_wallet: AccountInfo,
    wallet_data: SmartWalletData,
    execute_fee: u64,
    payer: Pubkey,
    cpi_program: AccountInfo,
    first: int,
    rent_exempt_minimum: u64,
)
    requires
        cpi_program.key == program_id(),
    ensures
        prepare_cpi_spec(accounts, data, program_id(), signer, allowed_signers) == Err::<
            InvocationView,
            LazorKitError,
        >(LazorKitError::ReentrancyDetected),
        dispatch_spec(
            smart_wallet,
            wallet_data,
            execute_fee,
            payer,
            cpi_program,
            accounts,
            first,
            data,
            rent_exempt_minimum,
        ) is Err,
        cpi_program.executable && 0 <= first <= accounts.len() ==> dispatch_spec(
            smart_wallet,
            wallet_data,
            execute_fee,
            payer,
            cpi_program,
            accounts,
            first,
            data,
            rent_exempt_minimum,
        ) == Err::<crate::instructions::common::Dispatch, EngineError>(
            EngineError::Wallet(LazorKitError::ReentrancyDetected),
        ),
{
    assert(program_id().bytes[0] == 253);
    assert(system_program_id().bytes[0] == 0);
}

/// Every call the engine prepares is addressed to another program.
pub proof fn lemma_prepared_calls_leave_the_engine(
    accounts: Seq<AccountInfo>,
    data: Seq<u8>,
    program: Pubkey,
    signer: PdaSignerView,
    allowed_signers: Seq<Pubkey>,
)
    requires
        prepare_cpi_spec(accounts, data, program, signer, allowed_signers) is Ok,
    ensures
        ({
            let call = prepare_cpi_spec(accounts, data, program, signer, allowed_signers)->Ok_0;
            &&& call.instruction.program_id == program
            &&& call.instruction.program_id != program_id()
            &&& call.instruction.data == data
            &&& call.instruction.accounts.len() == accounts.len()
            &&& forall|i: int|
                0 <= i < accounts.len() ==> call.instruction.accounts[i].pubkey
                    == accounts[i].key && call.instruction.accounts[i].is_writable
                    == accounts[i].is_writable
        }),
{
}

/// A session holds what the authorised challenge committed to, and the
/// nonce that was consumed for it.
pub proof fn lemma_session_holds_commitments(
    ctx: CommitCpi,
    args: CommitArgs,
    verify_instruction: Result<InstructionView, ProgramFault>,
    now: i64,
)
    requires
        commit_cpi_spec(ctx, args, verify_instruction, now) is Ok,
    ensures
        authorize_commit_spec(ctx, args, verify_instruction, now) matches Ok(msg) && {
            let session = commit_cpi_spec(ctx, args, verify_instruction, now)->Ok_0.session;
            &&& session.owner_wallet == ctx.smart_wallet.key
            &&& session.data_hash == msg.cpi_data_hash
            &&& session.accounts_hash == msg.cpi_accounts_hash
            &&& session.authorized_nonce == ctx.smart_wallet_data.last_nonce
            &&& session.authorized_nonce == msg.nonce
            &&& session.expires_at == args.expires_at
            &&& session.rent_refund_to == ctx.payer.key
            &&& sha256_digest(args.policy_data@) == msg.policy_data_hash@
        },
{
}

/// An accepted call into the policy program is bound to its
/// challenge: the digest of the policy data and the commitment to the
/// policy program and its accounts are the ones the authorised message
/// carries, and the device enrolled, if any, is the one it names.
pub proof fn lemma_invoke_policy_is_bound(
    ctx: InvokePolicy,
    args: InvokePolicyArgs,
    verify_instruction: Result<InstructionView, ProgramFault>,
    now: i64,
)
    requires
        invoke_policy_spec(ctx, args, verify_instruction, now) is Ok,
    ensures
        authorize_invoke_spec(ctx, args, verify_instruction, now) matches Ok(msg) && {
            let plan = invoke_policy_spec(ctx, args, verify_instruction, now)->Ok_0;
            &&& sha256_digest(args.policy_data@) == msg.policy_data_hash@
            &&& accounts_hash(ctx.policy_program.key, invoke_policy_accounts(ctx, args))
                == msg.policy_accounts_hash@
            &&& msg.nonce == ctx.smart_wallet_data.last_nonce
            &&& plan.new_device is Some <==> msg.new_passkey is Some
            &&& plan.new_device matches Some(creation) ==> Some(creation.passkey_pubkey)
                == crate::instructions::invoke_policy::signed_passkey(msg)
                && creation.smart_wallet == ctx.smart_wallet.key
            &&& plan.policy_call.instruction.program_id == ctx.smart_wallet_data.policy_program
        },
{
}

/// An accepted change of policy is bound to its challenge: the digests
/// of both instruction data and the commitments to both programs and
/// their accounts are the ones the authorised message carries.
pub proof fn lemma_update_policy_is_bound(
    ctx: UpdatePolicy,
    args: UpdatePolicyArgs,
    verify_instruction: Result<InstructionView, ProgramFault>,
    now: i64,
)
    requires
        update_policy_spec(ctx, args, verify_instruction, now) is Ok,
    ensures
        authorize_update_spec(ctx, args, verify_instruction, now) matches Ok(msg) && {
            &&& sha256_digest(args.destroy_policy_data@) == msg.old_policy_data_hash@
            &&& sha256_digest(args.init_policy_data@) == msg.new_policy_data_hash@
            &&& accounts_hash(ctx.old_policy_program.key, ctx.destroy_accounts(args))
                == msg.old_policy_accounts_hash@
            &&& accounts_hash(ctx.new_policy_program.key, ctx.init_accounts(args))
                == msg.new_policy_accounts_hash@
            &&& msg.nonce == ctx.smart_wallet_data.last_nonce
        },
{
}

/// An accepted commitment is bound to its challenge in its policy half:
/// the digest of the policy data and the commitment to the policy
/// program and its accounts are the ones the authorised message
/// carries.
pub proof fn lemma_commit_is_bound(
    ctx: CommitCpi,
    args: CommitArgs,
    verify_instruction: Result<InstructionView, ProgramFault>,
    now: i64,
)
    requires
        commit_cpi_spec(ctx, args, verify_instruction, now) is Ok,
    ensures
        authorize_commit_spec(ctx, args, verify_instruction, now) matches Ok(msg) && {
            &&& sha256_digest(args.policy_data@) == msg.policy_data_hash@
            &&& accounts_hash(ctx.policy_program.key, ctx.remaining_accounts@)
                == msg.policy_accounts_hash@
        },
{
}

/// What a session commits to is what gets executed: where a session
/// made by an accepted commitment is redeemed and an action is cleared,
/// the instruction data and the program with its accounts have the
/// digests that the passkey signed when it authorised the commitment.
pub proof fn lemma_committed_action_was_signed(
    commit: CommitCpi,
    args: CommitArgs,
    verify_instruction: Result<InstructionView, ProgramFault>,
    commit_now: i64,
    redeem: ExecuteCommitted,
    cpi_data: Seq<u8>,
    now: i64,
    rent_exempt_minimum: u64,
)
    requires
        commit_cpi_spec(commit, args, verify_instruction, commit_now) is Ok,
        redeem.transaction_session == commit_cpi_spec(
            commit,
            args,
            verify_instruction,
            commit_now,
        )->Ok_0.session,
        execute_committed_spec(redeem, cpi_data, now, rent_exempt_minimum) matches Ok(done)
            && done.outcome is Executed,
    ensures
        authorize_commit_spec(commit, args, verify_instruction, commit_now) matches Ok(msg) && {
            &&& sha256_digest(cpi_data) == msg.cpi_data_hash@
            &&& accounts_hash(redeem.cpi_program.key, redeem.remaining_accounts@)
                == msg.cpi_accounts_hash@
            &&& redeem.smart_wallet.key == commit.smart_wallet.key
            &&& now <= args.expires_at
        },
{
}

/// A wallet is always bound to a registered, executable policy
/// program: a new wallet starts on the default policy program, which
/// must be both, with a nonce of zero and an identifier that is not
/// zero; and the address of a new wallet is the one derived from its
/// identifier.
pub proof fn lemma_new_wallet_is_well_formed(ctx: CreateSmartWallet, args: CreateSmartWalletArgs)
    requires
        create_smart_wallet_spec(ctx, args) is Ok,
    ensures
        ({
            let creation = create_smart_wallet_spec(ctx, args)->Ok_0;
            &&& creation.wallet_data.id == args.wallet_id
            &&& creation.wallet_data.id != 0
            &&& creation.wallet_data.last_nonce == 0
            &&& creation.wallet_data.policy_program == ctx.config.default_policy_program
            &&& ctx.policy_program_registry@.contains(creation.wallet_data.policy_program)
            &&& ctx.default_policy_program.executable
            &&& program_address(wallet_seeds(args.wallet_id), program_id()) == Some(
                (ctx.smart_wallet.key, creation.wallet_data.bump),
            )
            &&& creation.device.smart_wallet == ctx.smart_wallet.key
            &&& creation.device.passkey_pubkey == args.passkey_pubkey@
            &&& creation.device.address == ctx.wallet_device.key
            &&& creation.init_policy.instruction.program_id == ctx.config.default_policy_program
        }),
{
}

/// The bookkeeping after an action succeeds wherever the nonce can
/// still go up and the fee can be collected: no fee is set, or the
/// wallet belongs to this program, holds the fee on top of the
/// rent-exempt minimum, and the payer's balance has room for the fee.
pub proof fn lemma_settlement_succeeds(
    wallet_data: SmartWalletData,
    smart_wallet: AccountInfo,
    payer: AccountInfo,
    execute_fee: u64,
    rent_exempt_minimum: u64,
)
    requires
        wallet_data.last_nonce < u64::MAX,
        execute_fee == 0 || (smart_wallet.owner == program_id() && smart_wallet.lamports
            >= execute_fee + rent_exempt_minimum && payer.lamports + execute_fee <= u64::MAX),
    ensures
        settle_spec(wallet_data, smart_wallet, payer, execute_fee, rent_exempt_minimum) is Ok,
{
}

/// A transaction that runs through its three steps raises the nonce of
/// the wallet by exactly one and leaves its identifier and its policy
/// program alone. `after` is the request as the second step leaves it.
/// Where the action was a native transfer, the last step succeeds
/// whenever the nonce can still go up and the payer's balance has room
/// for the fee.
pub proof fn lemma_execute_transaction_completes(
    ctx: ExecuteTransaction,
    args: ExecuteTransactionArgs,
    verify_instruction: Result<InstructionView, ProgramFault>,
    now: i64,
    rent_exempt_minimum: u64,
    after: ExecuteTransaction,
)
    requires
        execute_transaction_spec(ctx, args, verify_instruction, now) is Ok,
        execute_transaction_dispatch_spec(ctx, args, Ok(()), rent_exempt_minimum) matches Ok(d)
            && after.smart_wallet == d.smart_wallet && after.remaining_accounts@
            == d.remaining_accounts,
        after.smart_wallet_data == ctx.smart_wallet_data,
        after.payer == ctx.payer,
        after.config == ctx.config,
    ensures
        execute_transaction_finish_spec(after, Ok(()), rent_exempt_minimum) matches Ok(s) ==> {
            &&& s.wallet_data.last_nonce == ctx.smart_wallet_data.last_nonce + 1
            &&& s.wallet_data.id == ctx.smart_wallet_data.id
            &&& s.wallet_data.policy_program == ctx.smart_wallet_data.policy_program
            &&& s.wallet_data.bump == ctx.smart_wallet_data.bump
        },
        execute_transaction_dispatch_spec(
            ctx,
            args,
            Ok(()),
            rent_exempt_minimum,
        )->Ok_0.action is Transfer && ctx.smart_wallet_data.last_nonce < u64::MAX
            && ctx.payer.lamports + ctx.config.execute_fee <= u64::MAX
            ==> execute_transaction_finish_spec(after, Ok(()), rent_exempt_minimum) is Ok,
{
}

/// A commitment that runs through its two steps stores the nonce it
/// was authorised with in the session and raises the nonce of the
/// wallet by exactly one.
pub proof fn lemma_commit_completes(
    ctx: CommitCpi,
    args: CommitArgs,
    verify_instruction: Result<InstructionView, ProgramFault>,
    now: i64,
    rent_exempt_minimum: u64,
)
    requires
        commit_cpi_spec(ctx, args, verify_instruction, now) is Ok,
        commit_cpi_finish_spec(ctx, Ok(()), rent_exempt_minimum) is Ok,
    ensures
        ({
            let plan = commit_cpi_spec(ctx, args, verify_instruction, now)->Ok_0;
            let s = commit_cpi_finish_spec(ctx, Ok(()), rent_exempt_minimum)->Ok_0;
            &&& plan.session.authorized_nonce == ctx.smart_wallet_data.last_nonce
            &&& s.wallet_data.last_nonce == ctx.smart_wallet_data.last_nonce + 1
            &&& s.wallet_data.id == ctx.smart_wallet_data.id
            &&& s.wallet_data.policy_program == ctx.smart_wallet_data.policy_program
        }),
{
}

/// Policy data whose digest is not the one the challenge carries is
/// refused as invalid instruction data, where everything that is
/// checked before holds.
pub proof fn lemma_wrong_policy_data_is_refused(
    ctx: ExecuteTransaction,
    args: ExecuteTransactionArgs,
    verify_instruction: Result<InstructionView, ProgramFault>,
    now: i64,
)
    requires
        args.validate_spec() is Ok,
        !ctx.config.is_paused,
        ctx.remaining_accounts@.len() <= MAX_REMAINING_ACCOUNTS,
        authorize_execute_spec(ctx, args, verify_instruction, now) is Ok,
        check_policy_program_spec(
            ctx.policy_program,
            ctx.policy_program_registry@,
            ctx.smart_wallet_data,
        ) is Ok,
        0 < args.split_index <= ctx.remaining_accounts@.len(),
        has_discriminator(args.policy_data@, "check_policy"@),
        args.policy_data@.len() <= MAX_POLICY_DATA_SIZE,
        sha256_digest(args.policy_data@) != authorize_execute_spec(
            ctx,
            args,
            verify_instruction,
            now,
        )->Ok_0.policy_data_hash@,
    ensures
        execute_transaction_spec(ctx, args, verify_instruction, now) == Err::<
            InvocationView,
            EngineError,
        >(EngineError::Wallet(LazorKitError::InvalidInstructionData)),
{
}

/// Policy accounts whose commitment is not the one the challenge
/// carries are refused as invalid account data, where everything that
/// is checked before holds.
pub proof fn lemma_wrong_policy_accounts_are_refused(
    ctx: ExecuteTransaction,
    args: ExecuteTransactionArgs,
    verify_instruction: Result<InstructionView, ProgramFault>,
    now: i64,
)
    requires
        args.validate_spec() is Ok,
        !ctx.config.is_paused,
        ctx.remaining_accounts@.len() <= MAX_REMAINING_ACCOUNTS,
        authorize_execute_spec(ctx, args, verify_instruction, now) is Ok,
        check_policy_program_spec(
            ctx.policy_program,
            ctx.policy_program_registry@,
            ctx.smart_wallet_data,
        ) is Ok,
        0 < args.split_index <= ctx.remaining_accounts@.len(),
        has_discriminator(args.policy_data@, "check_policy"@),
        args.policy_data@.len() <= MAX_POLICY_DATA_SIZE,
        sha256_digest(args.policy_data@) == authorize_execute_spec(
            ctx,
            args,
            verify_instruction,
            now,
        )->Ok_0.policy_data_hash@,
        accounts_hash(ctx.policy_program.key, ctx.policy_accounts(args.split_index))
            != authorize_execute_spec(
            ctx,
            args,
            verify_instruction,
            now,
        )->Ok_0.policy_accounts_hash@,
    ensures
        execute_transaction_spec(ctx, args, verify_instruction, now) == Err::<
            InvocationView,
            EngineError,
        >(EngineError::Wallet(LazorKitError::InvalidAccountData)),
{
}

/// A change between two policy programs of which neither is the
/// default is refused for that very reason, where everything that is
/// checked before holds.
pub proof fn lemma_update_without_default_is_refused(
    ctx: UpdatePolicy,
    args: UpdatePolicyArgs,
    verify_instruction: Result<InstructionView, ProgramFault>,
    now: i64,
)
    requires
        update_policy_preconditions(ctx, args) is Ok,
        authorize_update_spec(ctx, args, verify_instruction, now) matches Ok(msg) && {
            &&& ctx.split_point(args) <= ctx.remaining_accounts@.len()
            &&& accounts_hash(ctx.old_policy_program.key, ctx.destroy_accounts(args))
                == msg.old_policy_accounts_hash@
            &&& accounts_hash(ctx.new_policy_program.key, ctx.init_accounts(args))
                == msg.new_policy_accounts_hash@
            &&& sha256_digest(args.destroy_policy_data@) == msg.old_policy_data_hash@
            &&& sha256_digest(args.init_policy_data@) == msg.new_policy_data_hash@
        },
        has_discriminator(args.destroy_policy_data@, "destroy"@),
        has_discriminator(args.init_policy_data@, "init_policy"@),
        ctx.old_policy_program.key != ctx.config.default_policy_program,
        ctx.new_policy_program.key != ctx.config.default_policy_program,
    ensures
        update_policy_spec(ctx, args, verify_instruction, now) == Err::<
            UpdatePolicyPlanView,
            EngineError,
        >(EngineError::Wallet(LazorKitError::NoDefaultPolicyProgram)),
{
}

/// Two accepted changes of policy in a row, the second made on the
/// wallet as the first left it, leave the wallet on the program the
/// second names and the nonce two higher; the program in between is
/// the one the first installed.
pub proof fn lemma_policy_changes_in_sequence(
    first: UpdatePolicy,
    first_args: UpdatePolicyArgs,
    first_instruction: Result<InstructionView, ProgramFault>,
    first_now: i64,
    second: UpdatePolicy,
    second_args: UpdatePolicyArgs,
    second_instruction: Result<InstructionView, ProgramFault>,
    second_now: i64,
    rent_exempt_minimum: u64,
)
    requires
        update_policy_spec(first, first_args, first_instruction, first_now) is Ok,
        update_policy_finish_spec(first, Ok(()), rent_exempt_minimum) matches Ok(s)
            && second.smart_wallet_data == s.wallet_data,
        update_policy_spec(second, second_args, second_instruction, second_now) is Ok,
        update_policy_finish_spec(second, Ok(()), rent_exempt_minimum) is Ok,
    ensures
        ({
            let s = update_policy_finish_spec(second, Ok(()), rent_exempt_minimum)->Ok_0;
            &&& second.old_policy_program.key == first.new_policy_program.key
            &&& s.wallet_data.policy_program == second.new_policy_program.key
            &&& s.wallet_data.last_nonce == first.smart_wallet_data.last_nonce + 2
            &&& s.wallet_data.id == first.smart_wallet_data.id
        }),
{
}

/// A redemption that does not fit its session runs nothing and still
/// succeeds: where the instruction data or the accounts have another
/// digest than the session holds, the session has expired, or it
/// belongs to another wallet, the wallet and the accounts of the action
/// are left as they are, the session account is emptied, and its
/// lamports go to the refund account. The refund account must be the
/// one the session names, and its balance must have room.
pub proof fn lemma_unfit_redemption_runs_nothing(
    ctx: ExecuteCommitted,
    cpi_data: Seq<u8>,
    now: i64,
    rent_exempt_minimum: u64,
)
    requires
        ctx.session_refund.key == ctx.transaction_session.rent_refund_to,
        ctx.session_refund.lamports + ctx.session_account.lamports <= u64::MAX,
        sha256_digest(cpi_data) != ctx.transaction_session.data_hash@ || accounts_hash(
            ctx.cpi_program.key,
            ctx.remaining_accounts@,
        ) != ctx.transaction_session.accounts_hash@ || now > ctx.transaction_session.expires_at
            || ctx.transaction_session.owner_wallet != ctx.smart_wallet.key,
    ensures
        execute_committed_spec(ctx, cpi_data, now, rent_exempt_minimum) matches Ok(done) && {
            &&& done.outcome is Skipped
            &&& done.smart_wallet == ctx.smart_wallet
            &&& done.remaining_accounts == ctx.remaining_accounts@
            &&& done.session_account.lamports == 0
            &&& done.session_account.data_is_empty
            &&& done.session_refund.lamports == ctx.session_refund.lamports
                + ctx.session_account.lamports
            &&& done.session_refund.key == ctx.transaction_session.rent_refund_to
        },
{
}

} // verus!
