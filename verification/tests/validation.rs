use lazorkit::account::AccountInfo;
use lazorkit::cpi::{
    create_cpi_instruction, get_account_slice, prepare_cpi, split_remaining_accounts,
    transfer_sol_from_pda,
};
use lazorkit::error::{EngineError, LazorKitError, ProgramFault, ILLEGAL_OWNER};
use lazorkit::instructions::admin::{
    check_authority, initialize, register_policy_program, update_config,
};
use lazorkit::instructions::args::{
    validate_envelope, Args, CommitArgs, ExecuteTransactionArgs, InvokePolicyArgs,
    UpdatePolicyArgs,
};
use lazorkit::instructions::common::{
    check_accounts_hash, check_data_hash, check_discriminator, settle,
};
use lazorkit::pda::{get_wallet_signer, smart_wallet_address, PdaSigner};
use lazorkit::pubkey::{program_id, system_program_id, Pubkey};
use lazorkit::security::validation::{
    validate_account_owner, validate_cpi_data, validate_credential_id, validate_lamport_amount,
    validate_policy_data, validate_program_executable, validate_remaining_accounts,
    validate_timestamp,
};
use lazorkit::security::RateLimiter;
use lazorkit::state::{
    check_whitelist, Config, PolicyProgramRegistry, SmartWalletData, UpdateConfigType,
};

fn key(b: u8) -> Pubkey {
    Pubkey { bytes: [b; 32] }
}

fn account(k: Pubkey) -> AccountInfo {
    AccountInfo {
        key: k,
        owner: system_program_id(),
        lamports: 0,
        is_signer: false,
        is_writable: false,
        executable: false,
        data_is_empty: true,
    }
}

fn program(k: Pubkey) -> AccountInfo {
    AccountInfo { executable: true, data_is_empty: false, ..account(k) }
}

fn owned(k: Pubkey, lamports: u64) -> AccountInfo {
    AccountInfo { owner: program_id(), lamports, is_writable: true, ..account(k) }
}

fn passkey() -> [u8; 33] {
    let mut k = [1u8; 33];
    k[0] = 2;
    k
}

fn config() -> Config {
    Config {
        authority: key(1),
        create_smart_wallet_fee: 0,
        execute_fee: 0,
        default_policy_program: key(9),
        is_paused: false,
    }
}

fn authority() -> AccountInfo {
    AccountInfo { is_signer: true, ..account(key(1)) }
}

#[test]
fn credential_id_bounds() {
    assert_eq!(validate_credential_id(&[]), Err(LazorKitError::CredentialIdEmpty));
    assert_eq!(validate_credential_id(&[1]), Ok(()));
    assert_eq!(validate_credential_id(&[0; 256]), Ok(()));
    assert_eq!(validate_credential_id(&[0; 257]), Err(LazorKitError::CredentialIdTooLarge));
}

#[test]
fn policy_and_cpi_data_bounds() {
    assert_eq!(validate_policy_data(&[]), Ok(()));
    assert_eq!(validate_policy_data(&[0; 1024]), Ok(()));
    assert_eq!(validate_policy_data(&[0; 1025]), Err(LazorKitError::PolicyDataTooLarge));
    assert_eq!(validate_cpi_data(&[]), Err(LazorKitError::CpiDataMissing));
    assert_eq!(validate_cpi_data(&[0; 1024]), Ok(()));
    assert_eq!(validate_cpi_data(&[0; 1025]), Err(LazorKitError::CpiDataTooLarge));
}

#[test]
fn remaining_accounts_bound() {
    assert_eq!(validate_remaining_accounts(&vec![account(key(1)); 32]), Ok(()));
    assert_eq!(
        validate_remaining_accounts(&vec![account(key(1)); 33]),
        Err(LazorKitError::TooManyRemainingAccounts)
    );
}

#[test]
fn lamport_amount_bound() {
    assert_eq!(validate_lamport_amount(0), Ok(()));
    assert_eq!(validate_lamport_amount(u64::MAX / 2), Ok(()));
    assert_eq!(validate_lamport_amount(u64::MAX / 2 + 1), Err(LazorKitError::TransferAmountOverflow));
}

#[test]
fn executable_and_owner_checks() {
    assert_eq!(validate_program_executable(&program(key(1))), Ok(()));
    assert_eq!(validate_program_executable(&account(key(1))), Err(LazorKitError::ProgramNotExecutable));
    assert_eq!(validate_account_owner(&account(key(1)), &system_program_id()), Ok(()));
    assert_eq!(
        validate_account_owner(&account(key(1)), &program_id()),
        Err(LazorKitError::InvalidAccountOwner)
    );
}

#[test]
fn transaction_age_is_at_most_five_minutes() {
    assert_eq!(validate_timestamp(1000, 1000), Ok(()));
    assert_eq!(validate_timestamp(700, 1000), Ok(()));
    assert_eq!(validate_timestamp(699, 1000), Err(LazorKitError::TransactionTooOld));
    assert_eq!(validate_timestamp(1001, 1000), Err(LazorKitError::TransactionTooOld));
    assert_eq!(validate_timestamp(i64::MIN, i64::MAX), Err(LazorKitError::TransactionTooOld));
    assert_eq!(validate_timestamp(i64::MAX, i64::MIN), Err(LazorKitError::TransactionTooOld));
}

#[test]
fn rate_limiter_windows() {
    assert_eq!(RateLimiter::check_rate_limit(0, 100, 100), Ok((true, 1, 100)));
    assert_eq!(RateLimiter::check_rate_limit(4, 109, 100), Ok((true, 5, 100)));
    assert_eq!(RateLimiter::check_rate_limit(5, 109, 100), Err(LazorKitError::RateLimitExceeded));
    assert_eq!(RateLimiter::check_rate_limit(5, 110, 100), Ok((true, 1, 110)));
    assert_eq!(RateLimiter::check_rate_limit(255, 5, 100), Err(LazorKitError::RateLimitExceeded));
    assert_eq!(RateLimiter::check_rate_limit(3, 5, 100), Ok((true, 4, 100)));
}

#[test]
fn envelope_checks_in_order() {
    let k = passkey();
    assert_eq!(validate_envelope(&k, &[0; 64], b"{}", b"a", 0), Ok(()));
    let mut odd = k;
    odd[0] = 3;
    assert_eq!(validate_envelope(&odd, &[0; 64], b"{}", b"a", 254), Ok(()));
    let mut bad = k;
    bad[0] = 4;
    assert_eq!(validate_envelope(&bad, &[0; 63], b"", b"", 255), Err(LazorKitError::InvalidPasskeyFormat));
    assert_eq!(validate_envelope(&k, &[0; 63], b"", b"", 255), Err(LazorKitError::InvalidSignature));
    assert_eq!(validate_envelope(&k, &[0; 65], b"{}", b"a", 0), Err(LazorKitError::InvalidSignature));
    assert_eq!(validate_envelope(&k, &[0; 64], b"", b"a", 0), Err(LazorKitError::InvalidInstructionData));
    assert_eq!(validate_envelope(&k, &[0; 64], b"{}", b"", 0), Err(LazorKitError::InvalidInstructionData));
    assert_eq!(validate_envelope(&k, &[0; 64], b"{}", b"a", 255), Err(LazorKitError::InvalidInstructionData));
}

#[test]
fn args_validate() {
    let execute = ExecuteTransactionArgs {
        passkey_pubkey: passkey(),
        signature: vec![0; 64],
        client_data_json_raw: b"{}".to_vec(),
        authenticator_data_raw: vec![1],
        verify_instruction_index: 0,
        split_index: 0,
        policy_data: vec![],
        cpi_data: vec![],
    };
    assert_eq!(execute.validate(), Ok(()));
    let invoke = InvokePolicyArgs {
        passkey_pubkey: [0; 33],
        signature: vec![0; 64],
        client_data_json_raw: b"{}".to_vec(),
        authenticator_data_raw: vec![1],
        verify_instruction_index: 0,
        policy_data: vec![],
        new_authenticator: None,
    };
    assert_eq!(invoke.validate(), Err(LazorKitError::InvalidPasskeyFormat));
    let update = UpdatePolicyArgs {
        passkey_pubkey: passkey(),
        signature: vec![0; 10],
        client_data_json_raw: b"{}".to_vec(),
        authenticator_data_raw: vec![1],
        verify_instruction_index: 0,
        split_index: 0,
        destroy_policy_data: vec![],
        init_policy_data: vec![],
        new_authenticator: None,
    };
    assert_eq!(update.validate(), Err(LazorKitError::InvalidSignature));
    let commit = CommitArgs {
        passkey_pubkey: passkey(),
        signature: vec![0; 64],
        client_data_json_raw: b"{}".to_vec(),
        authenticator_data_raw: vec![1],
        verify_instruction_index: 0,
        policy_data: vec![],
        expires_at: 0,
    };
    assert_eq!(commit.validate(), Err(LazorKitError::InvalidInstructionData));
    let commit = CommitArgs { policy_data: vec![1], ..commit };
    assert_eq!(commit.validate(), Ok(()));
}

#[test]
fn bindings_compare_digests() {
    let data = b"payload";
    let digest = anchor_lang::solana_program::hash::hash(data).to_bytes();
    assert_eq!(check_data_hash(data, &digest), Ok(()));
    assert_eq!(check_data_hash(b"payloae", &digest), Err(LazorKitError::InvalidInstructionData));
    let accounts = [account(key(1)), account(key(2))];
    let commitment = lazorkit::hash::hash_accounts(&key(9), &accounts);
    assert_eq!(check_accounts_hash(&key(9), &accounts, &commitment), Ok(()));
    let mut flipped = accounts;
    flipped[1].is_writable = true;
    assert_eq!(
        check_accounts_hash(&key(9), &flipped, &commitment),
        Err(LazorKitError::InvalidAccountData)
    );
    assert_eq!(
        check_accounts_hash(&key(8), &accounts, &commitment),
        Err(LazorKitError::InvalidAccountData)
    );
}

#[test]
fn discriminator_is_the_first_eight_bytes() {
    let mut data = lazorkit::hash::sighash("global", "check_policy").to_vec();
    assert!(check_discriminator(&data, "check_policy"));
    data.push(1);
    assert!(check_discriminator(&data, "check_policy"));
    assert!(!check_discriminator(&data, "destroy"));
    assert!(!check_discriminator(&data[..7], "check_policy"));
    assert!(!check_discriminator(&[], "check_policy"));
}

#[test]
fn account_slices() {
    let accounts = [account(key(1)), account(key(2)), account(key(3))];
    let s = get_account_slice(&accounts, 1, 2).unwrap();
    assert_eq!(s.len(), 2);
    assert_eq!(s[0].key, key(2));
    assert_eq!(get_account_slice(&accounts, 3, 0).unwrap().len(), 0);
    assert_eq!(get_account_slice(&accounts, 2, 2).err(), Some(LazorKitError::AccountSliceOutOfBounds));
    assert_eq!(get_account_slice(&accounts, 255, 255).err(), Some(LazorKitError::AccountSliceOutOfBounds));
    let (head, tail) = split_remaining_accounts(&accounts, 1).unwrap();
    assert_eq!((head.len(), tail.len()), (1, 2));
    assert_eq!(tail[0].key, key(2));
    let (head, tail) = split_remaining_accounts(&accounts, 3).unwrap();
    assert_eq!((head.len(), tail.len()), (3, 0));
    assert_eq!(
        split_remaining_accounts(&accounts, 4).err(),
        Some(LazorKitError::AccountSliceOutOfBounds)
    );
}

#[test]
fn transfer_moves_lamports() {
    let mut from = owned(key(1), 100);
    let mut to = account(key(2));
    to.lamports = 5;
    assert_eq!(transfer_sol_from_pda(&mut from, &mut to, 40), Ok(()));
    assert_eq!((from.lamports, to.lamports), (60, 45));
    assert_eq!(
        transfer_sol_from_pda(&mut from, &mut to, 61),
        Err(EngineError::Wallet(LazorKitError::InsufficientLamports))
    );
    assert_eq!((from.lamports, to.lamports), (60, 45));
    assert_eq!(transfer_sol_from_pda(&mut from, &mut to, 60), Ok(()));
    assert_eq!((from.lamports, to.lamports), (0, 105));
}

#[test]
fn transfer_refuses_foreign_accounts_and_overflow() {
    let mut from = account(key(1));
    from.lamports = 100;
    let mut to = account(key(2));
    let illegal_owner =
        u64::from(anchor_lang::solana_program::program_error::ProgramError::IllegalOwner);
    assert_eq!(ILLEGAL_OWNER, illegal_owner);
    assert_eq!(
        transfer_sol_from_pda(&mut from, &mut to, 1),
        Err(EngineError::Program(ProgramFault { code: illegal_owner }))
    );
    assert_eq!((from.lamports, to.lamports), (100, 0));
    assert_eq!(transfer_sol_from_pda(&mut from, &mut to, 0), Ok(()));
    assert_eq!((from.lamports, to.lamports), (100, 0));
    let mut from = owned(key(1), 100);
    to.lamports = u64::MAX - 5;
    assert_eq!(
        transfer_sol_from_pda(&mut from, &mut to, 6),
        Err(EngineError::Wallet(LazorKitError::IntegerOverflow))
    );
    assert_eq!((from.lamports, to.lamports), (100, u64::MAX - 5));
}

#[test]
fn cpi_instruction_marks_signers() {
    let mut a = account(key(1));
    a.is_writable = true;
    let b = account(key(2));
    let c = account(key(3));
    let ix = create_cpi_instruction(&[a, b, c], vec![1, 2, 3], &program(key(9)), &key(2), &[key(3)]);
    assert_eq!(ix.program_id, key(9));
    assert_eq!(ix.data, vec![1, 2, 3]);
    assert_eq!(ix.accounts.len(), 3);
    assert_eq!(ix.accounts[0].pubkey, key(1));
    assert!(!ix.accounts[0].is_signer && ix.accounts[0].is_writable);
    assert!(ix.accounts[1].is_signer && !ix.accounts[1].is_writable);
    assert!(ix.accounts[2].is_signer);
}

#[test]
fn prepared_call_is_signed_for_the_derived_address() {
    let (wallet, bump) = smart_wallet_address(7).unwrap();
    let accounts = [account(wallet), account(key(2))];
    let call = prepare_cpi(&accounts, &[9, 9], &program(key(9)), get_wallet_signer(7, bump), &[]).unwrap();
    assert!(call.instruction.accounts[0].is_signer);
    assert!(!call.instruction.accounts[1].is_signer);
    assert_eq!(call.signer_seeds.len(), 3);
    assert_eq!(call.signer_seeds[0], b"smart_wallet".to_vec());
    assert_eq!(call.signer_seeds[1], 7u64.to_le_bytes().to_vec());
    assert_eq!(call.signer_seeds[2], vec![bump]);
}

#[test]
fn prepared_call_never_targets_the_engine() {
    let accounts = [account(key(2))];
    let r = prepare_cpi(&accounts, &[9], &program(program_id()), get_wallet_signer(7, 255), &[]);
    assert_eq!(r.err(), Some(LazorKitError::ReentrancyDetected));
    let bad = PdaSigner { seeds: vec![vec![0u8; 33]], bump: 255 };
    let r = prepare_cpi(&accounts, &[9], &program(key(9)), bad, &[]);
    assert_eq!(r.err(), Some(LazorKitError::InvalidPDADerivation));
}

#[test]
fn settlement_bumps_nonce_and_collects_fee() {
    let mut data = SmartWalletData { id: 7, policy_program: key(9), last_nonce: 41, bump: 255 };
    let mut wallet = owned(key(1), 10_000);
    let mut payer = account(key(2));
    assert_eq!(settle(&mut data, &mut wallet, &mut payer, 0, 890), Ok(()));
    assert_eq!((data.last_nonce, wallet.lamports, payer.lamports), (42, 10_000, 0));
    assert_eq!(settle(&mut data, &mut wallet, &mut payer, 9_110, 890), Ok(()));
    assert_eq!((data.last_nonce, wallet.lamports, payer.lamports), (43, 890, 9_110));
    assert_eq!(
        settle(&mut data, &mut wallet, &mut payer, 1, 890),
        Err(EngineError::Wallet(LazorKitError::InsufficientBalanceForFee))
    );
    assert_eq!((data.last_nonce, wallet.lamports, payer.lamports), (43, 890, 9_110));
    assert_eq!(
        settle(&mut data, &mut wallet, &mut payer, u64::MAX, 890),
        Err(EngineError::Wallet(LazorKitError::InsufficientBalanceForFee))
    );
    data.last_nonce = u64::MAX;
    assert_eq!(
        settle(&mut data, &mut wallet, &mut payer, 0, 890),
        Err(EngineError::Wallet(LazorKitError::NonceOverflow))
    );
    assert_eq!(data.last_nonce, u64::MAX);
    data.last_nonce = 5;
    wallet.owner = system_program_id();
    assert_eq!(
        settle(&mut data, &mut wallet, &mut payer, 1, 0),
        Err(EngineError::Program(ProgramFault { code: ILLEGAL_OWNER }))
    );
    assert_eq!(data.last_nonce, 5);
}

#[test]
fn whitelist_lookup() {
    let registry = PolicyProgramRegistry { programs: vec![key(9), key(8)] };
    assert_eq!(check_whitelist(&registry, &key(8)), Ok(()));
    assert_eq!(check_whitelist(&registry, &key(7)), Err(LazorKitError::PolicyProgramNotRegistered));
    assert!(registry.contains(&key(9)));
    assert!(!PolicyProgramRegistry { programs: vec![] }.contains(&key(9)));
}

#[test]
fn initialize_sets_defaults() {
    let (config, registry) = initialize(&authority(), &program(key(9))).unwrap();
    assert_eq!(config.authority, key(1));
    assert_eq!(config.create_smart_wallet_fee, 0);
    assert_eq!(config.execute_fee, 0);
    assert_eq!(config.default_policy_program, key(9));
    assert!(!config.is_paused);
    assert_eq!(registry.programs, vec![key(9)]);
    assert_eq!(initialize(&authority(), &account(key(9))).err(), Some(LazorKitError::ProgramNotExecutable));
}

#[test]
fn update_config_changes_one_field() {
    let mut c = config();
    let a = authority();
    assert_eq!(update_config(&mut c, &a, UpdateConfigType::CreateWalletFee, 11, &[]), Ok(()));
    assert_eq!(update_config(&mut c, &a, UpdateConfigType::ExecuteFee, 22, &[]), Ok(()));
    assert_eq!((c.create_smart_wallet_fee, c.execute_fee), (11, 22));
    assert_eq!(update_config(&mut c, &a, UpdateConfigType::PauseProgram, 0, &[]), Ok(()));
    assert!(c.is_paused);
    assert_eq!(update_config(&mut c, &a, UpdateConfigType::UnpauseProgram, 0, &[]), Ok(()));
    assert!(!c.is_paused);
    assert_eq!(
        update_config(&mut c, &a, UpdateConfigType::DefaultPolicyProgram, 0, &[]),
        Err(LazorKitError::InvalidRemainingAccounts)
    );
    assert_eq!(
        update_config(&mut c, &a, UpdateConfigType::DefaultPolicyProgram, 0, &[account(key(5))]),
        Err(LazorKitError::ProgramNotExecutable)
    );
    assert_eq!(c.default_policy_program, key(9));
    assert_eq!(
        update_config(&mut c, &a, UpdateConfigType::DefaultPolicyProgram, 0, &[program(key(5))]),
        Ok(())
    );
    assert_eq!(c.default_policy_program, key(5));
    assert_eq!(
        update_config(&mut c, &a, UpdateConfigType::Admin, 0, &[]),
        Err(LazorKitError::InvalidRemainingAccounts)
    );
    assert_eq!(update_config(&mut c, &a, UpdateConfigType::Admin, 0, &[account(key(6))]), Ok(()));
    assert_eq!(c.authority, key(6));
    assert_eq!(
        update_config(&mut c, &a, UpdateConfigType::ExecuteFee, 1, &[]),
        Err(LazorKitError::InvalidAuthority)
    );
    assert_eq!(c.execute_fee, 22);
}

#[test]
fn only_the_signing_authority_administers() {
    let c = config();
    assert_eq!(check_authority(&c, &authority()), Ok(()));
    assert_eq!(check_authority(&c, &account(key(1))), Err(LazorKitError::InvalidAuthority));
    let other = AccountInfo { is_signer: true, ..account(key(2)) };
    assert_eq!(check_authority(&c, &other), Err(LazorKitError::InvalidAuthority));
}

#[test]
fn registry_appends_once_up_to_capacity() {
    let c = config();
    let a = authority();
    let mut registry = PolicyProgramRegistry { programs: vec![key(9)] };
    assert_eq!(register_policy_program(&mut registry, &c, &a, &[program(key(8))]), Ok(()));
    assert_eq!(registry.programs, vec![key(9), key(8)]);
    assert_eq!(register_policy_program(&mut registry, &c, &a, &[program(key(8))]), Ok(()));
    assert_eq!(registry.programs.len(), 2);
    assert_eq!(
        register_policy_program(&mut registry, &c, &a, &[account(key(7))]),
        Err(LazorKitError::ProgramNotExecutable)
    );
    assert_eq!(
        register_policy_program(&mut registry, &c, &a, &[]),
        Err(LazorKitError::InvalidRemainingAccounts)
    );
    assert_eq!(
        register_policy_program(&mut registry, &c, &account(key(1)), &[program(key(7))]),
        Err(LazorKitError::InvalidAuthority)
    );
    for i in 10..40u8 {
        assert_eq!(register_policy_program(&mut registry, &c, &a, &[program(key(i))]), Ok(()));
    }
    assert_eq!(registry.programs.len(), 32);
    assert_eq!(
        register_policy_program(&mut registry, &c, &a, &[program(key(100))]),
        Err(LazorKitError::WhitelistFull)
    );
    assert_eq!(register_policy_program(&mut registry, &c, &a, &[program(key(10))]), Ok(()));
    assert_eq!(registry.programs.len(), 32);
}

#[test]
fn engine_errors_wrap_wallet_errors() {
    assert_eq!(
        LazorKitError::NonceMismatch.into_engine(),
        EngineError::Wallet(LazorKitError::NonceMismatch)
    );
}
