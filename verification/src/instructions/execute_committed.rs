//! Redeem a committed transaction.
//!
//! No passkey is asked for: the session stands for the authorization.
//! The instruction offered must be the one the session commits to, and
//! the session must belong to the wallet and not have expired. Where
//! it is not so, nothing is executed and the call still succeeds, so
//! that the session is closed and its rent refunded either way. The
//! nonce is not touched: it was consumed when the session was made.

use vstd::prelude::*;
use crate::account::AccountInfo;
use crate::error::{EngineError, LazorKitError};
use crate::hash::{accounts_hash, sha256_digest};
use crate::instructions::common::{
    check_accounts_hash, check_data_hash, dispatch_spec, dispatch_wallet_action, WalletAction,
    WalletActionView,
};
use crate::pubkey::{system_program_id, Pubkey};
use crate::security::MAX_REMAINING_ACCOUNTS;
use crate::state::{Config, SmartWalletData, TransactionSession};

verus! {

/// The accounts of `execute_committed`.
#[derive(Clone, Debug)]
pub struct ExecuteCommitted {
    pub payer: AccountInfo,
    pub config: Config,
    pub smart_wallet: AccountInfo,
    pub smart_wallet_data: SmartWalletData,
    pub cpi_program: AccountInfo,
    /// The session to redeem.
    pub transaction_session: TransactionSession,
    /// The account that holds the session.
    pub session_account: AccountInfo,
    /// The account that receives the rent of the session.
    pub session_refund: AccountInfo,
    /// The accounts of the action.
    pub remaining_accounts: Vec<AccountInfo>,
}

/// Why a session was closed without executing anything.
#[derive(Clone, Copy, Debug, PartialEq, Eq, Structural)]
pub enum SkipReason {
    TooManyAccounts,
    Expired,
    WalletMismatch,
    ProgramNotExecutable,
    DataMismatch,
    AccountsMismatch,
}

/// How a redemption ended.
#[derive(Clone, Debug)]
pub enum CommittedOutcome {
    /// The committed action was cleared.
    Executed(WalletAction),
    /// Nothing was executed.
    Skipped(SkipReason),
}

/// Mathematical content of a [`CommittedOutcome`].
pub enum CommittedOutcomeView {
    Executed(WalletActionView),
    Skipped(SkipReason),
}

impl View for CommittedOutcome {
    type V = CommittedOutcomeView;

    open spec fn view(&self) -> CommittedOutcomeView {
        match self {
            CommittedOutcome::Executed(action) => CommittedOutcomeView::Executed(action@),
            CommittedOutcome::Skipped(reason) => CommittedOutcomeView::Skipped(*reason),
        }
    }
}

/// The reason, if there is one, for which the instruction offered is
/// not executed: the checks are made in the order given.
pub open spec fn skip_reason(ctx: ExecuteCommitted, cpi_data: Seq<u8>, now: i64) -> Option<
    SkipReason,
> {
    if ctx.remaining_accounts@.len() > MAX_REMAINING_ACCOUNTS {
        Some(SkipReason::TooManyAccounts)
    } else if ctx.transaction_session.expires_at < now {
        Some(SkipReason::Expired)
    } else if ctx.transaction_session.owner_wallet != ctx.smart_wallet.key {
        Some(SkipReason::WalletMismatch)
    } else if !ctx.cpi_program.executable {
        Some(SkipReason::ProgramNotExecutable)
    } else if sha256_digest(cpi_data) != ctx.transaction_session.data_hash@ {
        Some(SkipReason::DataMismatch)
    } else if accounts_hash(ctx.cpi_program.key, ctx.remaining_accounts@)
        != ctx.transaction_session.accounts_hash@ {
        Some(SkipReason::AccountsMismatch)
    } else {
        None
    }
}

/// The two accounts after the session is closed: the refund account
/// holds the lamports of both, and the session account is empty and
/// handed back to the system program.
pub open spec fn close_spec(session_account: AccountInfo, session_refund: AccountInfo) -> Result<
    (AccountInfo, AccountInfo),
    LazorKitError,
> {
    if session_refund.lamports + session_account.lamports > u64::MAX {
        Err(LazorKitError::IntegerOverflow)
    } else {
        Ok(
            (
                AccountInfo {
                    lamports: 0,
                    data_is_empty: true,
                    owner: system_program_id(),
                    ..session_account
                },
                AccountInfo {
                    lamports: (session_refund.lamports + session_account.lamports) as u64,
                    ..session_refund
                },
            ),
        )
    }
}

/// Closes `source` and hands its lamports to `destination`. On failure
/// nothing changes.
pub fn close_account(source: &mut AccountInfo, destination: &mut AccountInfo) -> (r: Result<
    (),
    LazorKitError,
>)
    ensures
        match close_spec(*old(source), *old(destination)) {
            Ok((closed, refunded)) => r is Ok && *final(source) == closed && *final(destination)
                == refunded,
            Err(e) => r == Err::<(), LazorKitError>(e) && *final(source) == *old(source)
                && *final(destination) == *old(destination),
        },
{
    let total = match destination.lamports.checked_add(source.lamports) {
        None => {
            return Err(LazorKitError::IntegerOverflow);
        },
        Some(v) => v,
    };
    destination.lamports = total;
    source.lamports = 0;
    source.data_is_empty = true;
    source.owner = system_program_id();
    Ok(())
}

/// The accounts after a redemption, and how it ended.
pub struct Redemption {
    pub outcome: CommittedOutcomeView,
    pub smart_wallet: AccountInfo,
    pub remaining_accounts: Seq<AccountInfo>,
    pub session_account: AccountInfo,
    pub session_refund: AccountInfo,
}

/// How the redemption of a session with the instruction `cpi_data`
/// ends. The refund account must be the one the session names. Where
/// there is a reason to skip, nothing is executed; else the action is
/// cleared as for an immediate transaction. Either way the session is
/// closed. A failure of the action itself fails the redemption.
pub open spec fn execute_committed_spec(
    ctx: ExecuteCommitted,
    cpi_data: Seq<u8>,
    now: i64,
    rent_exempt_minimum: u64,
) -> Result<Redemption, EngineError> {
    if ctx.session_refund.key != ctx.transaction_session.rent_refund_to {
        Err(EngineError::Wallet(LazorKitError::InvalidAccountData))
    } else {
        match close_spec(ctx.session_account, ctx.session_refund) {
            Err(e) => Err(EngineError::Wallet(e)),
            Ok((session_account, session_refund)) => match skip_reason(ctx, cpi_data, now) {
                Some(reason) => Ok(
                    Redemption {
                        outcome: CommittedOutcomeView::Skipped(reason),
                        smart_wallet: ctx.smart_wallet,
                        remaining_accounts: ctx.remaining_accounts@,
                        session_account,
                        session_refund,
                    },
                ),
                None => match dispatch_spec(
                    ctx.smart_wallet,
                    ctx.smart_wallet_data,
                    ctx.config.execute_fee,
                    ctx.payer.key,
                    ctx.cpi_program,
                    ctx.remaining_accounts@,
                    0,
                    cpi_data,
                    rent_exempt_minimum,
                ) {
                    Err(e) => Err(e),
                    Ok(d) => Ok(
                        Redemption {
                            outcome: CommittedOutcomeView::Executed(d.action),
                            smart_wallet: d.smart_wallet,
                            remaining_accounts: d.remaining_accounts,
                            session_account,
                            session_refund,
                        },
                    ),
                },
            },
        }
    }
}

fn find_skip_reason(ctx: &ExecuteCommitted, cpi_data: &[u8], now: i64) -> (r: Option<SkipReason>)
    ensures
        r == skip_reason(*ctx, cpi_data@, now),
{
    if ctx.remaining_accounts.len() > MAX_REMAINING_ACCOUNTS {
        return Some(SkipReason::TooManyAccounts);
    }
    if ctx.transaction_session.expires_at < now {
        return Some(SkipReason::Expired);
    }
    proof {
        Pubkey::lemma_view_injective(ctx.transaction_session.owner_wallet, ctx.smart_wallet.key);
    }
    if ctx.transaction_session.owner_wallet != ctx.smart_wallet.key {
        return Some(SkipReason::WalletMismatch);
    }
    if !ctx.cpi_program.executable {
        return Some(SkipReason::ProgramNotExecutable);
    }
    if check_data_hash(cpi_data, &ctx.transaction_session.data_hash).is_err() {
        return Some(SkipReason::DataMismatch);
    }
    if check_accounts_hash(
        &ctx.cpi_program.key,
        ctx.remaining_accounts.as_slice(),
        &ctx.transaction_session.accounts_hash,
    ).is_err() {
        return Some(SkipReason::AccountsMismatch);
    }
    None
}

/// Redeems the session of `ctx` with the instruction `cpi_data`, and
/// closes it. On failure nothing changes.
///
/// `now` is the runtime clock; `rent_exempt_minimum` is the balance the
/// runtime asks an account without data to keep.
pub fn execute_committed(
    ctx: &mut ExecuteCommitted,
    cpi_data: &[u8],
    now: i64,
    rent_exempt_minimum: u64,
) -> (r: Result<CommittedOutcome, EngineError>)
    ensures
        match execute_committed_spec(*old(ctx), cpi_data@, now, rent_exempt_minimum) {
            Ok(done) => {
                &&& r matches Ok(outcome)
                &&& outcome@ == done.outcome
                &&& final(ctx).smart_wallet == done.smart_wallet
                &&& final(ctx).remaining_accounts@ == done.remaining_accounts
                &&& final(ctx).session_account == done.session_account
                &&& final(ctx).session_refund == done.session_refund
            },
            Err(e) => {
                &&& r matches Err(got)
                &&& got == e
                &&& final(ctx).smart_wallet == old(ctx).smart_wallet
                &&& final(ctx).remaining_accounts@ == old(ctx).remaining_accounts@
                &&& final(ctx).session_account == old(ctx).session_account
                &&& final(ctx).session_refund == old(ctx).session_refund
            },
        },
        final(ctx).smart_wallet_data == old(ctx).smart_wallet_data,
        final(ctx).transaction_session == old(ctx).transaction_session,
        final(ctx).payer == old(ctx).payer,
        final(ctx).config == old(ctx).config,
        final(ctx).cpi_program == old(ctx).cpi_program,
{
    proof {
        Pubkey::lemma_view_injective(
            ctx.session_refund.key,
            ctx.transaction_session.rent_refund_to,
        );
    }
    if ctx.session_refund.key != ctx.transaction_session.rent_refund_to {
        return Err(EngineError::Wallet(LazorKitError::InvalidAccountData));
    }
    if ctx.session_refund.lamports > u64::MAX - ctx.session_account.lamports {
        return Err(EngineError::Wallet(LazorKitError::IntegerOverflow));
    }
    let outcome = match find_skip_reason(ctx, cpi_data, now) {
        Some(reason) => CommittedOutcome::Skipped(reason),
        None => {
            let fee = ctx.config.execute_fee;
            let payer = ctx.payer.key;
            let cpi_program = ctx.cpi_program;
            let wallet_data = ctx.smart_wallet_data;
            match dispatch_wallet_action(
                &mut ctx.smart_wallet,
                &wallet_data,
                fee,
                &payer,
                &cpi_program,
                &mut ctx.remaining_accounts,
                0,
                cpi_data,
                rent_exempt_minimum,
            ) {
                Err(e) => {
                    return Err(e);
                },
                Ok(action) => CommittedOutcome::Executed(action),
            }
        },
    };
    match close_account(&mut ctx.session_account, &mut ctx.session_refund) {
        Err(e) => {
            return Err(EngineError::Wallet(e));
        },
        Ok(_) => {},
    }
    Ok(outcome)
}

/// A redemption executes nothing but the instruction the session
/// commits to: where an action is cleared, the instruction data and the
/// program with its accounts have the digests the session holds, the
/// session belongs to the wallet and has not expired, and the action is
/// the one that this very instruction stands for. Where nothing is
/// executed, the wallet and the accounts of the action are unchanged.
/// Either way the session account ends up empty.
pub proof fn lemma_redemption_is_bound(
    ctx: ExecuteCommitted,
    cpi_data: Seq<u8>,
    now: i64,
    rent_exempt_minimum: u64,
)
    requires
        execute_committed_spec(ctx, cpi_data, now, rent_exempt_minimum) is Ok,
    ensures
        ({
            let done = execute_committed_spec(ctx, cpi_data, now, rent_exempt_minimum)->Ok_0;
            &&& done.session_account.lamports == 0 && done.session_account.data_is_empty
            &&& done.session_refund.lamports == ctx.session_refund.lamports
                + ctx.session_account.lamports
            &&& done.outcome is Skipped ==> done.smart_wallet == ctx.smart_wallet
                && done.remaining_accounts == ctx.remaining_accounts@
            &&& done.outcome matches CommittedOutcomeView::Executed(action) ==> {
                &&& sha256_digest(cpi_data) == ctx.transaction_session.data_hash@
                &&& accounts_hash(ctx.cpi_program.key, ctx.remaining_accounts@)
                    == ctx.transaction_session.accounts_hash@
                &&& ctx.transaction_session.owner_wallet == ctx.smart_wallet.key
                &&& now <= ctx.transaction_session.expires_at
                &&& dispatch_spec(
                    ctx.smart_wallet,
                    ctx.smart_wallet_data,
                    ctx.config.execute_fee,
                    ctx.payer.key,
                    ctx.cpi_program,
                    ctx.remaining_accounts@,
                    0,
                    cpi_data,
                    rent_exempt_minimum,
                ) matches Ok(d) && d.action == action
            }
        }),
{
}

} // verus!
