//! Administration: the configuration and the registry of policy
//! programs. Only the authority the configuration names may change
//! them.

use vstd::prelude::*;
use crate::account::AccountInfo;
use crate::error::LazorKitError;
use crate::pubkey::Pubkey;
use crate::state::{Config, PolicyProgramRegistry, UpdateConfigType, MAX_POLICY_PROGRAMS};

verus! {

/// The configuration and the registry a fresh deployment starts with:
/// the signer is the authority, no fees are set, the engine is not
/// paused, and the default policy program is the only one registered.
pub open spec fn initialize_spec(signer: AccountInfo, default_policy_program: AccountInfo) -> Result<
    (Config, Seq<Pubkey>),
    LazorKitError,
> {
    if !default_policy_program.executable {
        Err(LazorKitError::ProgramNotExecutable)
    } else {
        Ok(
            (
                Config {
                    authority: signer.key,
                    create_smart_wallet_fee: 0,
                    execute_fee: 0,
                    default_policy_program: default_policy_program.key,
                    is_paused: false,
                },
                seq![default_policy_program.key],
            ),
        )
    }
}

/// Creates the configuration and the registry.
pub fn initialize(signer: &AccountInfo, default_policy_program: &AccountInfo) -> (r: Result<
    (Config, PolicyProgramRegistry),
    LazorKitError,
>)
    ensures
        match initialize_spec(*signer, *default_policy_program) {
            Err(e) => r matches Err(got) && got == e,
            Ok((config, programs)) => r matches Ok((c, registry)) && c == config && registry@
                == programs && registry.wf(),
        },
{
    if !default_policy_program.executable {
        return Err(LazorKitError::ProgramNotExecutable);
    }
    let mut programs: Vec<Pubkey> = Vec::new();
    programs.push(default_policy_program.key);
    assert(programs@ =~= seq![default_policy_program.key]);
    Ok(
        (
            Config {
                authority: signer.key,
                create_smart_wallet_fee: 0,
                execute_fee: 0,
                default_policy_program: default_policy_program.key,
                is_paused: false,
            },
            PolicyProgramRegistry { programs },
        ),
    )
}

/// The account is the authority of the configuration and has signed.
pub open spec fn is_authority(config: Config, authority: AccountInfo) -> bool {
    authority.is_signer && authority.key == config.authority
}

/// Checks that `authority` may administer the engine.
pub fn check_authority(config: &Config, authority: &AccountInfo) -> (r: Result<(), LazorKitError>)
    ensures
        r == (if is_authority(*config, *authority) {
            Ok::<(), LazorKitError>(())
        } else {
            Err::<(), LazorKitError>(LazorKitError::InvalidAuthority)
        }),
{
    proof {
        Pubkey::lemma_view_injective(authority.key, config.authority);
    }
    if authority.is_signer && authority.key == config.authority {
        Ok(())
    } else {
        Err(LazorKitError::InvalidAuthority)
    }
}

/// The configuration after an update of `param`. Fees take `value`; a
/// new default policy program or a new authority is the first of the
/// remaining accounts, and a program must be executable; pausing and
/// unpausing set the flag.
pub open spec fn update_config_spec(
    config: Config,
    authority: AccountInfo,
    param: UpdateConfigType,
    value: u64,
    remaining_accounts: Seq<AccountInfo>,
) -> Result<Config, LazorKitError> {
    if !is_authority(config, authority) {
        Err(LazorKitError::InvalidAuthority)
    } else {
        match param {
            UpdateConfigType::CreateWalletFee => Ok(
                Config { create_smart_wallet_fee: value, ..config },
            ),
            UpdateConfigType::ExecuteFee => Ok(Config { execute_fee: value, ..config }),
            UpdateConfigType::DefaultPolicyProgram => if remaining_accounts.len() == 0 {
                Err(LazorKitError::InvalidRemainingAccounts)
            } else if !remaining_accounts[0].executable {
                Err(LazorKitError::ProgramNotExecutable)
            } else {
                Ok(Config { default_policy_program: remaining_accounts[0].key, ..config })
            },
            UpdateConfigType::Admin => if remaining_accounts.len() == 0 {
                Err(LazorKitError::InvalidRemainingAccounts)
            } else {
                Ok(Config { authority: remaining_accounts[0].key, ..config })
            },
            UpdateConfigType::PauseProgram => Ok(Config { is_paused: true, ..config }),
            UpdateConfigType::UnpauseProgram => Ok(Config { is_paused: false, ..config }),
        }
    }
}

/// Changes one field of the configuration. On failure nothing changes.
pub fn update_config(
    config: &mut Config,
    authority: &AccountInfo,
    param: UpdateConfigType,
    value: u64,
    remaining_accounts: &[AccountInfo],
) -> (r: Result<(), LazorKitError>)
    ensures
        match update_config_spec(*old(config), *authority, param, value, remaining_accounts@) {
            Ok(updated) => r is Ok && *final(config) == updated,
            Err(e) => r == Err::<(), LazorKitError>(e) && *final(config) == *old(config),
        },
{
    match check_authority(config, authority) {
        Err(e) => {
            return Err(e);
        },
        Ok(_) => {},
    }
    match param {
        UpdateConfigType::CreateWalletFee => {
            config.create_smart_wallet_fee = value;
        },
        UpdateConfigType::ExecuteFee => {
            config.execute_fee = value;
        },
        UpdateConfigType::DefaultPolicyProgram => {
            if remaining_accounts.len() == 0 {
                return Err(LazorKitError::InvalidRemainingAccounts);
            }
            let program = &remaining_accounts[0];
            if !program.executable {
                return Err(LazorKitError::ProgramNotExecutable);
            }
            config.default_policy_program = program.key;
        },
        UpdateConfigType::Admin => {
            if remaining_accounts.len() == 0 {
                return Err(LazorKitError::InvalidRemainingAccounts);
            }
            config.authority = remaining_accounts[0].key;
        },
        UpdateConfigType::PauseProgram => {
            config.is_paused = true;
        },
        UpdateConfigType::UnpauseProgram => {
            config.is_paused = false;
        },
    }
    Ok(())
}

/// The registry after the first of the remaining accounts is offered
/// for registration: an executable program that is not yet listed is
/// appended while there is room, and one that is listed changes
/// nothing.
pub open spec fn register_policy_program_spec(
    registry: Seq<Pubkey>,
    config: Config,
    authority: AccountInfo,
    remaining_accounts: Seq<AccountInfo>,
) -> Result<Seq<Pubkey>, LazorKitError> {
    if !is_authority(config, authority) {
        Err(LazorKitError::InvalidAuthority)
    } else if remaining_accounts.len() == 0 {
        Err(LazorKitError::InvalidRemainingAccounts)
    } else if !remaining_accounts[0].executable {
        Err(LazorKitError::ProgramNotExecutable)
    } else if registry.contains(remaining_accounts[0].key) {
        Ok(registry)
    } else if registry.len() >= MAX_POLICY_PROGRAMS {
        Err(LazorKitError::WhitelistFull)
    } else {
        Ok(registry.push(remaining_accounts[0].key))
    }
}

/// Registers a policy program. On failure nothing changes.
pub fn register_policy_program(
    registry: &mut PolicyProgramRegistry,
    config: &Config,
    authority: &AccountInfo,
    remaining_accounts: &[AccountInfo],
) -> (r: Result<(), LazorKitError>)
    requires
        old(registry).wf(),
    ensures
        final(registry).wf(),
        match register_policy_program_spec(
            old(registry)@,
            *config,
            *authority,
            remaining_accounts@,
        ) {
            Ok(updated) => r is Ok && final(registry)@ == updated,
            Err(e) => r == Err::<(), LazorKitError>(e) && final(registry)@ == old(registry)@,
        },
{
    match check_authority(config, authority) {
        Err(e) => {
            return Err(e);
        },
        Ok(_) => {},
    }
    if remaining_accounts.len() == 0 {
        return Err(LazorKitError::InvalidRemainingAccounts);
    }
    let program = &remaining_accounts[0];
    if !program.executable {
        return Err(LazorKitError::ProgramNotExecutable);
    }
    if registry.contains(&program.key) {
        return Ok(());
    }
    if registry.programs.len() >= MAX_POLICY_PROGRAMS {
        return Err(LazorKitError::WhitelistFull);
    }
    registry.programs.push(program.key);
    assert(registry@ =~= old(registry)@.push(program.key));
    Ok(())
}

} // verus!
