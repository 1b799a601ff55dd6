//! One entry point for the four authorised actions.
//!
//! [`execute`] looks at the action a request names and hands it to its
//! handler; [`execute_finish`] applies what all four have in common
//! once the runtime has done its part: the nonce goes up by one and the
//! fee is collected.

use vstd::prelude::*;
use crate::account::{AccountInfo, InstructionView};
use crate::auth::instruction_at;
use crate::cpi::{Invocation, InvocationView};
use crate::error::{EngineError, LazorKitError, ProgramFault};
use crate::instructions::args::{
    Args, CommitArgs, ExecuteTransactionArgs, InvokePolicyArgs, UpdatePolicyArgs,
};
use crate::instructions::commit_cpi::{
    commit_cpi, commit_cpi_finish, commit_cpi_finish_spec, commit_cpi_spec, CommitCpi,
    CommitPlan, CommitPlanView,
};
use crate::instructions::common::Settlement;
use crate::instructions::execute_transaction::{
    execute_transaction, execute_transaction_finish, execute_transaction_finish_spec,
    execute_transaction_spec, ExecuteTransaction,
};
use crate::instructions::invoke_policy::{
    invoke_policy, invoke_policy_finish, invoke_policy_finish_spec, invoke_policy_spec,
    InvokePolicy, InvokePolicyPlan, InvokePolicyPlanView,
};
use crate::instructions::update_policy::{
    update_policy, update_policy_finish, update_policy_finish_spec, update_policy_spec,
    UpdatePolicy, UpdatePolicyPlan, UpdatePolicyPlanView,
};
use crate::state::SmartWalletData;

verus! {

/// The actions a passkey can authorise.
#[derive(Clone, Copy, Debug, PartialEq, Eq, Structural)]
pub enum Action {
    ExecuteTransaction,
    InvokePolicy,
    UpdatePolicy,
    CommitCpi,
}

/// The accounts of a request, by action.
#[derive(Clone, Debug)]
pub enum Execute {
    ExecuteTransaction(ExecuteTransaction),
    InvokePolicy(InvokePolicy),
    UpdatePolicy(UpdatePolicy),
    CommitCpi(CommitCpi),
}

/// The arguments of a request, by action.
#[derive(Clone, Debug)]
pub enum ExecuteArgs {
    ExecuteTransaction(ExecuteTransactionArgs),
    InvokePolicy(InvokePolicyArgs),
    UpdatePolicy(UpdatePolicyArgs),
    CommitCpi(CommitArgs),
}

/// What the runtime has to do for an accepted request, by action.
#[derive(Clone, Debug)]
pub enum ExecutePlan {
    /// The call into the policy program that vets a transaction.
    ExecuteTransaction(Invocation),
    InvokePolicy(InvokePolicyPlan),
    UpdatePolicy(UpdatePolicyPlan),
    CommitCpi(CommitPlan),
}

/// Mathematical content of an [`ExecutePlan`].
pub enum ExecutePlanView {
    ExecuteTransaction(InvocationView),
    InvokePolicy(InvokePolicyPlanView),
    UpdatePolicy(UpdatePolicyPlanView),
    CommitCpi(CommitPlanView),
}

impl View for ExecutePlan {
    type V = ExecutePlanView;

    open spec fn view(&self) -> ExecutePlanView {
        match self {
            ExecutePlan::ExecuteTransaction(call) => ExecutePlanView::ExecuteTransaction(call@),
            ExecutePlan::InvokePolicy(plan) => ExecutePlanView::InvokePolicy(plan@),
            ExecutePlan::UpdatePolicy(plan) => ExecutePlanView::UpdatePolicy(plan@),
            ExecutePlan::CommitCpi(plan) => ExecutePlanView::CommitCpi(plan@),
        }
    }
}

impl Execute {
    /// The action the accounts are meant for.
    pub open spec fn spec_action(&self) -> Action {
        match self {
            Execute::ExecuteTransaction(_) => Action::ExecuteTransaction,
            Execute::InvokePolicy(_) => Action::InvokePolicy,
            Execute::UpdatePolicy(_) => Action::UpdatePolicy,
            Execute::CommitCpi(_) => Action::CommitCpi,
        }
    }

    /// The action the accounts are meant for.
    pub fn action(&self) -> (a: Action)
        ensures
            a == self.spec_action(),
    {
        match self {
            Execute::ExecuteTransaction(_) => Action::ExecuteTransaction,
            Execute::InvokePolicy(_) => Action::InvokePolicy,
            Execute::UpdatePolicy(_) => Action::UpdatePolicy,
            Execute::CommitCpi(_) => Action::CommitCpi,
        }
    }

    /// The data record of the wallet the request is about.
    pub open spec fn wallet_data(&self) -> SmartWalletData {
        match self {
            Execute::ExecuteTransaction(ctx) => ctx.smart_wallet_data,
            Execute::InvokePolicy(ctx) => ctx.smart_wallet_data,
            Execute::UpdatePolicy(ctx) => ctx.smart_wallet_data,
            Execute::CommitCpi(ctx) => ctx.smart_wallet_data,
        }
    }

    /// The wallet the request is about.
    pub open spec fn smart_wallet(&self) -> AccountInfo {
        match self {
            Execute::ExecuteTransaction(ctx) => ctx.smart_wallet,
            Execute::InvokePolicy(ctx) => ctx.smart_wallet,
            Execute::UpdatePolicy(ctx) => ctx.smart_wallet,
            Execute::CommitCpi(ctx) => ctx.smart_wallet,
        }
    }

    /// The payer of the request.
    pub open spec fn payer(&self) -> AccountInfo {
        match self {
            Execute::ExecuteTransaction(ctx) => ctx.payer,
            Execute::InvokePolicy(ctx) => ctx.payer,
            Execute::UpdatePolicy(ctx) => ctx.payer,
            Execute::CommitCpi(ctx) => ctx.payer,
        }
    }

    /// The request with the record of the wallet, the wallet and the
    /// payer as a settlement leaves them, and everything else as it is.
    pub open spec fn settled(self, s: Settlement) -> Execute {
        match self {
            Execute::ExecuteTransaction(ctx) => Execute::ExecuteTransaction(
                ExecuteTransaction {
                    smart_wallet_data: s.wallet_data,
                    smart_wallet: s.smart_wallet,
                    payer: s.payer,
                    ..ctx
                },
            ),
            Execute::InvokePolicy(ctx) => Execute::InvokePolicy(
                InvokePolicy {
                    smart_wallet_data: s.wallet_data,
                    smart_wallet: s.smart_wallet,
                    payer: s.payer,
                    ..ctx
                },
            ),
            Execute::UpdatePolicy(ctx) => Execute::UpdatePolicy(
                UpdatePolicy {
                    smart_wallet_data: s.wallet_data,
                    smart_wallet: s.smart_wallet,
                    payer: s.payer,
                    ..ctx
                },
            ),
            Execute::CommitCpi(ctx) => Execute::CommitCpi(
                CommitCpi {
                    smart_wallet_data: s.wallet_data,
                    smart_wallet: s.smart_wallet,
                    payer: s.payer,
                    ..ctx
                },
            ),
        }
    }
}

impl ExecuteArgs {
    /// The action the arguments ask for.
    pub open spec fn spec_action(&self) -> Action {
        match self {
            ExecuteArgs::ExecuteTransaction(_) => Action::ExecuteTransaction,
            ExecuteArgs::InvokePolicy(_) => Action::InvokePolicy,
            ExecuteArgs::UpdatePolicy(_) => Action::UpdatePolicy,
            ExecuteArgs::CommitCpi(_) => Action::CommitCpi,
        }
    }

    /// The action the arguments ask for.
    pub fn action(&self) -> (a: Action)
        ensures
            a == self.spec_action(),
    {
        match self {
            ExecuteArgs::ExecuteTransaction(_) => Action::ExecuteTransaction,
            ExecuteArgs::InvokePolicy(_) => Action::InvokePolicy,
            ExecuteArgs::UpdatePolicy(_) => Action::UpdatePolicy,
            ExecuteArgs::CommitCpi(_) => Action::CommitCpi,
        }
    }
}

impl Args for ExecuteArgs {
    open spec fn validate_spec(&self) -> Result<(), LazorKitError> {
        match self {
            ExecuteArgs::ExecuteTransaction(args) => args.validate_spec(),
            ExecuteArgs::InvokePolicy(args) => args.validate_spec(),
            ExecuteArgs::UpdatePolicy(args) => args.validate_spec(),
            ExecuteArgs::CommitCpi(args) => args.validate_spec(),
        }
    }

    fn validate(&self) -> (r: Result<(), LazorKitError>) {
        match self {
            ExecuteArgs::ExecuteTransaction(args) => args.validate(),
            ExecuteArgs::InvokePolicy(args) => args.validate(),
            ExecuteArgs::UpdatePolicy(args) => args.validate(),
            ExecuteArgs::CommitCpi(args) => args.validate(),
        }
    }
}

/// What the runtime has to do for a request, or the reason the request
/// is refused. Accounts and arguments must be meant for the same
/// action; the handler of that action decides the rest.
pub open spec fn execute_spec(
    ctx: Execute,
    args: ExecuteArgs,
    verify_instruction: Result<InstructionView, ProgramFault>,
    now: i64,
) -> Result<ExecutePlanView, EngineError> {
    match (ctx, args) {
        (Execute::ExecuteTransaction(c), ExecuteArgs::ExecuteTransaction(a)) => {
            match execute_transaction_spec(c, a, verify_instruction, now) {
                Ok(call) => Ok(ExecutePlanView::ExecuteTransaction(call)),
                Err(e) => Err(e),
            }
        },
        (Execute::InvokePolicy(c), ExecuteArgs::InvokePolicy(a)) => {
            match invoke_policy_spec(c, a, verify_instruction, now) {
                Ok(plan) => Ok(ExecutePlanView::InvokePolicy(plan)),
                Err(e) => Err(e),
            }
        },
        (Execute::UpdatePolicy(c), ExecuteArgs::UpdatePolicy(a)) => {
            match update_policy_spec(c, a, verify_instruction, now) {
                Ok(plan) => Ok(ExecutePlanView::UpdatePolicy(plan)),
                Err(e) => Err(e),
            }
        },
        (Execute::CommitCpi(c), ExecuteArgs::CommitCpi(a)) => {
            match commit_cpi_spec(c, a, verify_instruction, now) {
                Ok(plan) => Ok(ExecutePlanView::CommitCpi(plan)),
                Err(e) => Err(e),
            }
        },
        _ => Err(EngineError::Wallet(LazorKitError::InvalidActionType)),
    }
}

/// The verification record of a request: what the runtime finds at
/// the index that the arguments declare.
pub open spec fn verification_record(ctx: Execute, args: ExecuteArgs) -> Result<
    InstructionView,
    ProgramFault,
> {
    instruction_at(
        match ctx {
            Execute::ExecuteTransaction(c) => c.ix_sysvar,
            Execute::InvokePolicy(c) => c.ix_sysvar,
            Execute::UpdatePolicy(c) => c.ix_sysvar,
            Execute::CommitCpi(c) => c.ix_sysvar,
        },
        match args {
            ExecuteArgs::ExecuteTransaction(a) => a.verify_instruction_index,
            ExecuteArgs::InvokePolicy(a) => a.verify_instruction_index,
            ExecuteArgs::UpdatePolicy(a) => a.verify_instruction_index,
            ExecuteArgs::CommitCpi(a) => a.verify_instruction_index,
        },
    )
}

/// First step of any authorised action: hands the request to the
/// handler of its action. Nothing is changed.
///
/// `now` is the runtime clock.
pub fn execute(ctx: &Execute, args: &ExecuteArgs, now: i64) -> (r: Result<
    ExecutePlan,
    EngineError,
>)
    ensures
        match execute_spec(*ctx, *args, verification_record(*ctx, *args), now) {
            Err(e) => r matches Err(got) && got == e,
            Ok(plan) => r matches Ok(got) && got@ == plan,
        },
{
    match (ctx, args) {
        (Execute::ExecuteTransaction(c), ExecuteArgs::ExecuteTransaction(a)) => {
            match execute_transaction(c, a, now) {
                Ok(call) => Ok(ExecutePlan::ExecuteTransaction(call)),
                Err(e) => Err(e),
            }
        },
        (Execute::InvokePolicy(c), ExecuteArgs::InvokePolicy(a)) => {
            match invoke_policy(c, a, now) {
                Ok(plan) => Ok(ExecutePlan::InvokePolicy(plan)),
                Err(e) => Err(e),
            }
        },
        (Execute::UpdatePolicy(c), ExecuteArgs::UpdatePolicy(a)) => {
            match update_policy(c, a, now) {
                Ok(plan) => Ok(ExecutePlan::UpdatePolicy(plan)),
                Err(e) => Err(e),
            }
        },
        (Execute::CommitCpi(c), ExecuteArgs::CommitCpi(a)) => {
            match commit_cpi(c, a, now) {
                Ok(plan) => Ok(ExecutePlan::CommitCpi(plan)),
                Err(e) => Err(e),
            }
        },
        _ => Err(EngineError::Wallet(LazorKitError::InvalidActionType)),
    }
}

/// What is left of the wallet after an action, by action.
pub open spec fn execute_finish_spec(
    ctx: Execute,
    outcome: Result<(), ProgramFault>,
    rent_exempt_minimum: u64,
) -> Result<Settlement, EngineError> {
    match ctx {
        Execute::ExecuteTransaction(c) => execute_transaction_finish_spec(
            c,
            outcome,
            rent_exempt_minimum,
        ),
        Execute::InvokePolicy(c) => invoke_policy_finish_spec(c, outcome, rent_exempt_minimum),
        Execute::UpdatePolicy(c) => update_policy_finish_spec(c, outcome, rent_exempt_minimum),
        Execute::CommitCpi(c) => commit_cpi_finish_spec(c, outcome, rent_exempt_minimum),
    }
}

/// Last step of any authorised action: hands the request to the
/// handler of its action, which bumps the nonce and has the wallet pay
/// the fee to the payer. Nothing else of the request changes, and on
/// failure nothing changes at all.
///
/// `outcome` is how the work handed to the runtime ended.
pub fn execute_finish(
    ctx: &mut Execute,
    outcome: &Result<(), ProgramFault>,
    rent_exempt_minimum: u64,
) -> (r: Result<(), EngineError>)
    ensures
        match execute_finish_spec(*old(ctx), *outcome, rent_exempt_minimum) {
            Ok(s) => r is Ok && *final(ctx) == old(ctx).settled(s),
            Err(e) => r == Err::<(), EngineError>(e) && *final(ctx) == *old(ctx),
        },
{
    match ctx {
        Execute::ExecuteTransaction(c) => execute_transaction_finish(
            c,
            outcome,
            rent_exempt_minimum,
        ),
        Execute::InvokePolicy(c) => invoke_policy_finish(c, outcome, rent_exempt_minimum),
        Execute::UpdatePolicy(c) => update_policy_finish(c, outcome, rent_exempt_minimum),
        Execute::CommitCpi(c) => commit_cpi_finish(c, outcome, rent_exempt_minimum),
    }
}

/// The fee the configuration of a request sets for an action.
pub open spec fn execute_fee(ctx: Execute) -> u64 {
    match ctx {
        Execute::ExecuteTransaction(c) => c.config.execute_fee,
        Execute::InvokePolicy(c) => c.config.execute_fee,
        Execute::UpdatePolicy(c) => c.config.execute_fee,
        Execute::CommitCpi(c) => c.config.execute_fee,
    }
}

/// Whatever the action, completing it raises the nonce of the wallet
/// by exactly one, takes the fee from the wallet and credits it to the
/// payer, and leaves the wallet at least the rent-exempt minimum where
/// a fee is set. A fault of the runtime completes nothing.
pub proof fn lemma_every_action_bumps_nonce(
    ctx: Execute,
    outcome: Result<(), ProgramFault>,
    rent_exempt_minimum: u64,
)
    ensures
        outcome matches Err(fault) ==> execute_finish_spec(ctx, outcome, rent_exempt_minimum)
            == Err::<Settlement, EngineError>(EngineError::Program(fault)),
        execute_finish_spec(ctx, outcome, rent_exempt_minimum) matches Ok(s) ==> {
            &&& outcome is Ok
            &&& s.wallet_data.last_nonce == ctx.wallet_data().last_nonce + 1
            &&& s.wallet_data.id == ctx.wallet_data().id
            &&& s.smart_wallet.lamports == ctx.smart_wallet().lamports - execute_fee(ctx)
            &&& s.payer.lamports == ctx.payer().lamports + execute_fee(ctx)
            &&& execute_fee(ctx) > 0 ==> s.smart_wallet.lamports >= rent_exempt_minimum
        },
        execute_fee(ctx) > 0 && ctx.smart_wallet().lamports < execute_fee(ctx)
            + rent_exempt_minimum && outcome is Ok && ctx.wallet_data().last_nonce < u64::MAX
            ==> execute_finish_spec(ctx, outcome, rent_exempt_minimum) == Err::<
            Settlement,
            EngineError,
        >(EngineError::Wallet(LazorKitError::InsufficientBalanceForFee)),
{
}

/// Whatever the action, no request is accepted while the engine is
/// paused.
pub proof fn lemma_paused_engine_accepts_nothing(
    ctx: Execute,
    args: ExecuteArgs,
    verify_instruction: Result<InstructionView, ProgramFault>,
    now: i64,
)
    requires
        match ctx {
            Execute::ExecuteTransaction(c) => c.config.is_paused,
            Execute::InvokePolicy(c) => c.config.is_paused,
            Execute::UpdatePolicy(c) => c.config.is_paused,
            Execute::CommitCpi(c) => c.config.is_paused,
        },
    ensures
        execute_spec(ctx, args, verify_instruction, now) is Err,
{
}

} // verus!
