use base64::Engine;
use lazorkit::account::{AccountInfo, Instruction, InstructionsSysvar};
use lazorkit::auth::{load_instruction, verify_authorization};
use lazorkit::error::{EngineError, LazorKitError, ProgramFault};
use lazorkit::hash::{hash_accounts, sighash};
use lazorkit::instructions::args::{
    CreateSmartWalletArgs, ExecuteTransactionArgs, InvokePolicyArgs, NewAuthenticatorArgs,
    UpdatePolicyArgs,
};
use lazorkit::instructions::common::{dispatch_wallet_action, enrol_device, WalletAction};
use lazorkit::instructions::create_smart_wallet::{create_smart_wallet, CreateSmartWallet};
use lazorkit::instructions::execute::{
    execute, execute_finish, Action, Execute, ExecuteArgs, ExecutePlan,
};
use lazorkit::instructions::execute_transaction::{
    execute_transaction, execute_transaction_dispatch, execute_transaction_finish,
    ExecuteTransaction,
};
use lazorkit::instructions::invoke_policy::{invoke_policy, invoke_policy_finish, InvokePolicy};
use lazorkit::instructions::update_policy::{update_policy, update_policy_init, UpdatePolicy};
use lazorkit::message::{ExecuteMessage, InvokePolicyMessage, Message, UpdatePolicyMessage};
use lazorkit::pda::{smart_wallet_address, wallet_device_address};
use lazorkit::pubkey::{program_id, secp256r1_program_id, system_program_id, Pubkey};
use lazorkit::state::{Config, PolicyProgramRegistry, SmartWalletData, WalletDevice};

const NOW: i64 = 1_700_000_000;
const RENT: u64 = 890_880;
const FEE: u64 = 5_000;
const START: u64 = 10_000_000;

fn key(b: u8) -> Pubkey {
    Pubkey { bytes: [b; 32] }
}

fn sha(data: &[u8]) -> [u8; 32] {
    anchor_lang::solana_program::hash::hash(data).to_bytes()
}

fn account(k: Pubkey) -> AccountInfo {
    AccountInfo {
        key: k,
        owner: system_program_id(),
        lamports: 0,
        is_signer: false,
        is_writable: false,
        executable: false,
        data_is_empty: true,
    }
}

fn program(k: Pubkey) -> AccountInfo {
    AccountInfo { executable: true, data_is_empty: false, ..account(k) }
}

fn passkey() -> [u8; 33] {
    let mut k = [1u8; 33];
    k[0] = 2;
    k
}

fn default_policy() -> Pubkey {
    key(9)
}

fn config() -> Config {
    Config {
        authority: key(1),
        create_smart_wallet_fee: 0,
        execute_fee: FEE,
        default_policy_program: default_policy(),
        is_paused: false,
    }
}

fn registry() -> PolicyProgramRegistry {
    PolicyProgramRegistry { programs: vec![default_policy(), key(0xa1), key(0xb1), key(0xc1)] }
}

fn payer() -> AccountInfo {
    AccountInfo { is_signer: true, is_writable: true, lamports: 1_000_000_000, ..account(key(2)) }
}

fn transfer_data(amount: u64) -> Vec<u8> {
    let mut data = vec![2u8, 0, 0, 0];
    data.extend_from_slice(&amount.to_le_bytes());
    data
}

fn call_data(name: &str) -> Vec<u8> {
    let mut data = sighash("global", name).to_vec();
    data.extend_from_slice(&[1, 2, 3]);
    data
}

fn client_data_for(challenge: &[u8]) -> Vec<u8> {
    let text = base64::engine::general_purpose::URL_SAFE_NO_PAD.encode(challenge);
    format!(
        "{{\"type\":\"webauthn.get\",\"challenge\":\"{}\",\"origin\":\"https://example.com\"}}",
        text
    )
    .into_bytes()
}

fn authenticator_data() -> Vec<u8> {
    vec![0x49; 37]
}

fn signature() -> Vec<u8> {
    vec![0x5a; 64]
}

fn record(public_key: &[u8], signature: &[u8], message: &[u8]) -> Instruction {
    let mut data = vec![1u8, 0];
    data.extend_from_slice(&49u16.to_le_bytes());
    data.extend_from_slice(&0xffffu16.to_le_bytes());
    data.extend_from_slice(&16u16.to_le_bytes());
    data.extend_from_slice(&0xffffu16.to_le_bytes());
    data.extend_from_slice(&113u16.to_le_bytes());
    data.extend_from_slice(&(message.len() as u16).to_le_bytes());
    data.extend_from_slice(&0xffffu16.to_le_bytes());
    data.extend_from_slice(public_key);
    data.extend_from_slice(signature);
    data.extend_from_slice(message);
    Instruction { program_id: secp256r1_program_id(), accounts: Vec::new(), data }
}

fn sysvar_with(instructions: &[Instruction]) -> InstructionsSysvar {
    let keys: Vec<anchor_lang::prelude::Pubkey> = instructions
        .iter()
        .map(|ix| anchor_lang::prelude::Pubkey::new_from_array(ix.program_id.bytes))
        .collect();
    let borrowed: Vec<anchor_lang::solana_program::sysvar::instructions::BorrowedInstruction> = instructions
        .iter()
        .zip(keys.iter())
        .map(|(ix, key)| anchor_lang::solana_program::sysvar::instructions::BorrowedInstruction {
            program_id: key,
            accounts: Vec::new(),
            data: &ix.data,
        })
        .collect();
    InstructionsSysvar {
        key: Pubkey { bytes: anchor_lang::solana_program::sysvar::instructions::ID.to_bytes() },
        data: anchor_lang::solana_program::sysvar::instructions::construct_instructions_data(&borrowed),
    }
}

/// The transaction that goes with a signed `clientDataJSON`: its first
/// instruction is the verification record.
fn record_for(client_data: &[u8]) -> InstructionsSysvar {
    let mut message = authenticator_data();
    message.extend_from_slice(&sha(client_data));
    sysvar_with(&[record(&passkey(), &signature(), &message)])
}

fn try_execute_transaction(
    ctx: &ExecuteTransaction,
    args: &ExecuteTransactionArgs,
    verify: &InstructionsSysvar,
    now: i64,
) -> Result<lazorkit::cpi::Invocation, EngineError> {
    let mut ctx = ctx.clone();
    ctx.ix_sysvar = verify.clone();
    execute_transaction(&ctx, args, now)
}

fn try_update_policy(
    ctx: &UpdatePolicy,
    args: &UpdatePolicyArgs,
    verify: &InstructionsSysvar,
    now: i64,
) -> Result<lazorkit::instructions::update_policy::UpdatePolicyPlan, EngineError> {
    let mut ctx = ctx.clone();
    ctx.ix_sysvar = verify.clone();
    update_policy(&ctx, args, now)
}

struct Wallet {
    account: AccountInfo,
    data: SmartWalletData,
    device: WalletDevice,
}

/// Creates the wallet with identifier 7 and the passkey `0x02 01 .. 01`.
fn create_wallet() -> Wallet {
    let (wallet_key, wallet_bump) = smart_wallet_address(7).unwrap();
    let (device_key, device_bump) = wallet_device_address(&passkey(), wallet_key).unwrap();
    let ctx = CreateSmartWallet {
        signer: payer(),
        policy_program_registry: registry(),
        smart_wallet: account(wallet_key),
        wallet_device: account(device_key),
        config: config(),
        default_policy_program: program(default_policy()),
        remaining_accounts: vec![account(key(0x20))],
    };
    let args = CreateSmartWalletArgs {
        passkey_pubkey: passkey(),
        credential_id: vec![7; 16],
        policy_data: call_data("init_policy"),
        wallet_id: 7,
        is_pay_for_user: true,
    };
    let creation = create_smart_wallet(&ctx, &args).unwrap();
    assert_eq!(creation.wallet_data.id, 7);
    assert_eq!(creation.wallet_data.last_nonce, 0);
    assert_eq!(creation.wallet_data.policy_program, default_policy());
    assert_eq!(creation.wallet_data.bump, wallet_bump);
    assert_eq!(creation.device.address, device_key);
    assert_eq!(creation.device.device.bump, device_bump);
    assert_eq!(creation.device.device.smart_wallet, wallet_key);
    assert_eq!(creation.device.device.passkey_pubkey, passkey());
    assert_eq!(creation.device.device.credential_id, vec![7; 16]);
    assert_eq!(creation.init_policy.instruction.program_id, default_policy());
    assert_eq!(creation.init_policy.instruction.data, call_data("init_policy"));
    Wallet {
        account: AccountInfo {
            owner: program_id(),
            lamports: START,
            is_writable: true,
            ..account(wallet_key)
        },
        data: creation.wallet_data,
        device: creation.device.device,
    }
}

fn remaining(wallet: &Wallet) -> Vec<AccountInfo> {
    vec![
        account(key(0x20)),
        wallet.account,
        AccountInfo { is_writable: true, lamports: 500, ..account(key(0x30)) },
    ]
}

fn execute_ctx(wallet: &Wallet) -> ExecuteTransaction {
    ExecuteTransaction {
        payer: payer(),
        smart_wallet: wallet.account,
        smart_wallet_data: wallet.data,
        wallet_device: wallet.device.clone(),
        policy_program_registry: registry(),
        policy_program: program(wallet.data.policy_program),
        cpi_program: program(system_program_id()),
        config: config(),
        remaining_accounts: remaining(wallet),
        ix_sysvar: sysvar_with(&[]),
    }
}

/// A signed request to move `signed_amount` lamports that submits the
/// bytes of a transfer of `submitted_amount`.
fn transfer_request(
    ctx: &ExecuteTransaction,
    nonce: u64,
    signed_amount: u64,
    submitted_amount: u64,
) -> (ExecuteTransactionArgs, InstructionsSysvar) {
    let policy_data = call_data("check_policy");
    let message = ExecuteMessage {
        nonce,
        current_timestamp: NOW,
        policy_data_hash: sha(&policy_data),
        policy_accounts_hash: hash_accounts(&ctx.policy_program.key, &ctx.remaining_accounts[..1]),
        cpi_data_hash: sha(&transfer_data(signed_amount)),
        cpi_accounts_hash: hash_accounts(&ctx.cpi_program.key, &ctx.remaining_accounts[1..]),
    };
    let client_data = client_data_for(&message.serialize());
    let verify = record_for(&client_data);
    let args = ExecuteTransactionArgs {
        passkey_pubkey: passkey(),
        signature: signature(),
        client_data_json_raw: client_data,
        authenticator_data_raw: authenticator_data(),
        verify_instruction_index: 0,
        split_index: 1,
        policy_data,
        cpi_data: transfer_data(submitted_amount),
    };
    (args, verify)
}

fn wallet_err<T: std::fmt::Debug>(r: Result<T, EngineError>) -> LazorKitError {
    match r {
        Err(EngineError::Wallet(e)) => e,
        other => panic!("expected an engine error, got {:?}", other),
    }
}


fn second_passkey() -> [u8; 33] {
    let mut k = [7u8; 33];
    k[0] = 3;
    k
}

#[test]
fn authorization_checks_device_then_record_then_challenge() {
    let wallet = create_wallet();
    let ctx = execute_ctx(&wallet);
    let (args, verify) = transfer_request(&ctx, 0, 1, 1);
    let run = |device: &WalletDevice,
               wallet_key: Pubkey,
               claimed: [u8; 33],
               verify: &InstructionsSysvar,
               sig: &[u8],
               client: &[u8],
               auth: &[u8],
               nonce: u64,
               now: i64| {
        verify_authorization::<ExecuteMessage>(
            verify, device, wallet_key, claimed, sig, client, auth, 0, nonce, now,
        )
    };
    let k = wallet.account.key;
    let cd = &args.client_data_json_raw;
    let ad = &args.authenticator_data_raw;
    let sig = &args.signature;

    let m = run(&wallet.device, k, passkey(), &verify, sig, cd, ad, 0, NOW).unwrap();
    assert_eq!(m.nonce, 0);
    assert_eq!(m.current_timestamp, NOW);
    assert_eq!(m.cpi_data_hash, sha(&transfer_data(1)));

    let e = |r: Result<ExecuteMessage, EngineError>| r.err().unwrap();
    let w = |e: LazorKitError| EngineError::Wallet(e);
    assert_eq!(
        e(run(&wallet.device, k, second_passkey(), &verify, sig, cd, ad, 0, NOW)),
        w(LazorKitError::PasskeyMismatch)
    );
    assert_eq!(
        e(run(&wallet.device, key(3), passkey(), &verify, sig, cd, ad, 0, NOW)),
        w(LazorKitError::SmartWalletMismatch)
    );
    let invalid_argument =
        u64::from(anchor_lang::solana_program::program_error::ProgramError::InvalidArgument);
    assert_eq!(
        e(run(&wallet.device, k, passkey(), &sysvar_with(&[]), sig, cd, ad, 0, NOW)),
        EngineError::Program(ProgramFault { code: invalid_argument })
    );
    let unsupported =
        u64::from(anchor_lang::solana_program::program_error::ProgramError::UnsupportedSysvar);
    let elsewhere = InstructionsSysvar { key: key(0x33), data: verify.data.clone() };
    assert_eq!(
        e(run(&wallet.device, k, passkey(), &elsewhere, sig, cd, ad, 0, NOW)),
        EngineError::Program(ProgramFault { code: unsupported })
    );
    assert_eq!(
        e(run(&wallet.device, k, passkey(), &verify, sig, &[0xff], ad, 0, NOW)),
        w(LazorKitError::ClientDataInvalidUtf8)
    );
    assert_eq!(
        e(run(&wallet.device, k, passkey(), &verify, sig, b"{}", ad, 0, NOW)),
        w(LazorKitError::ChallengeMissing)
    );
    let mut other_sig = sig.clone();
    other_sig[0] ^= 1;
    assert_eq!(
        e(run(&wallet.device, k, passkey(), &verify, &other_sig, cd, ad, 0, NOW)),
        w(LazorKitError::Secp256r1DataMismatch)
    );
    let mut other_ad = ad.clone();
    other_ad[5] ^= 1;
    assert_eq!(
        e(run(&wallet.device, k, passkey(), &verify, sig, cd, &other_ad, 0, NOW)),
        w(LazorKitError::Secp256r1DataMismatch)
    );
    let mut message = authenticator_data();
    message.extend_from_slice(&sha(cd));
    let mut foreign = record(&passkey(), &signature(), &message);
    foreign.program_id = system_program_id();
    assert_eq!(
        e(run(&wallet.device, k, passkey(), &sysvar_with(&[foreign]), sig, cd, ad, 0, NOW)),
        w(LazorKitError::Secp256r1InvalidLength)
    );
    assert_eq!(
        e(run(&wallet.device, k, passkey(), &verify, sig, cd, ad, 1, NOW)),
        w(LazorKitError::NonceMismatch)
    );
    assert_eq!(
        e(run(&wallet.device, k, passkey(), &verify, sig, cd, ad, 0, NOW + 31)),
        w(LazorKitError::TimestampTooOld)
    );
    assert_eq!(
        e(run(&wallet.device, k, passkey(), &verify, sig, cd, ad, 0, NOW - 31)),
        w(LazorKitError::TimestampTooNew)
    );
    assert!(run(&wallet.device, k, passkey(), &verify, sig, cd, ad, 0, NOW + 30).is_ok());
    assert!(run(&wallet.device, k, passkey(), &verify, sig, cd, ad, 0, NOW - 30).is_ok());

    let short = client_data_for(&[1, 2, 3]);
    let verify_short = record_for(&short);
    assert_eq!(
        e(run(&wallet.device, k, passkey(), &verify_short, sig, &short, ad, 0, NOW)),
        w(LazorKitError::ChallengeDeserializationError)
    );
}

#[test]
fn verification_record_is_read_at_the_declared_index() {
    let wallet = create_wallet();
    let ctx = execute_ctx(&wallet);
    let (args, _) = transfer_request(&ctx, 0, 1, 1);
    let mut message = authenticator_data();
    message.extend_from_slice(&sha(&args.client_data_json_raw));
    let good = record(&passkey(), &signature(), &message);
    let other = Instruction { program_id: key(0x50), accounts: Vec::new(), data: vec![1, 2, 3] };
    let sysvar = sysvar_with(&[other.clone(), good.clone(), other]);
    let at = |index: u8| {
        verify_authorization::<ExecuteMessage>(
            &sysvar,
            &wallet.device,
            wallet.account.key,
            passkey(),
            &args.signature,
            &args.client_data_json_raw,
            &args.authenticator_data_raw,
            index,
            0,
            NOW,
        )
    };
    assert!(at(1).is_ok());
    assert_eq!(at(0).err(), Some(EngineError::Wallet(LazorKitError::Secp256r1InvalidLength)));
    assert_eq!(at(2).err(), Some(EngineError::Wallet(LazorKitError::Secp256r1InvalidLength)));
    assert!(matches!(at(3), Err(EngineError::Program(_))));

    let loaded = load_instruction(&sysvar, 1).unwrap();
    assert_eq!(loaded.program_id, good.program_id);
    assert_eq!(loaded.data, good.data);
    assert!(loaded.accounts.is_empty());

    let mut request = ctx.clone();
    request.ix_sysvar = sysvar;
    let at_one = ExecuteTransactionArgs { verify_instruction_index: 1, ..args.clone() };
    assert!(execute_transaction(&request, &at_one, NOW).is_ok());
    assert!(execute_transaction(&request, &args, NOW).is_err());
}

#[test]
fn execute_transaction_preconditions() {
    let wallet = create_wallet();
    let good = execute_ctx(&wallet);
    let (args, verify) = transfer_request(&good, 0, 1_000_000, 1_000_000);
    let check = |ctx: &ExecuteTransaction, args: &ExecuteTransactionArgs| {
        wallet_err(try_execute_transaction(ctx, args, &verify, NOW))
    };

    assert_eq!(
        check(&good, &ExecuteTransactionArgs { signature: vec![0; 5], ..args.clone() }),
        LazorKitError::InvalidSignature
    );
    let mut ctx = good.clone();
    ctx.config.is_paused = true;
    assert_eq!(check(&ctx, &args), LazorKitError::ProgramPaused);
    let mut ctx = good.clone();
    ctx.remaining_accounts = vec![account(key(1)); 33];
    assert_eq!(check(&ctx, &args), LazorKitError::TooManyRemainingAccounts);
    let mut ctx = good.clone();
    ctx.policy_program.executable = false;
    assert_eq!(check(&ctx, &args), LazorKitError::ProgramNotExecutable);
    let mut ctx = good.clone();
    ctx.policy_program = program(key(0x99));
    assert_eq!(check(&ctx, &args), LazorKitError::PolicyProgramNotRegistered);
    let mut ctx = good.clone();
    ctx.policy_program = program(key(0xa1));
    assert_eq!(check(&ctx, &args), LazorKitError::InvalidProgramAddress);
    assert_eq!(
        check(&good, &ExecuteTransactionArgs { split_index: 4, ..args.clone() }),
        LazorKitError::AccountSliceOutOfBounds
    );
    assert_eq!(
        check(&good, &ExecuteTransactionArgs { split_index: 0, ..args.clone() }),
        LazorKitError::InsufficientPolicyAccounts
    );
    assert_eq!(
        check(&good, &ExecuteTransactionArgs { policy_data: call_data("destroy"), ..args.clone() }),
        LazorKitError::InvalidCheckPolicyDiscriminator
    );
    let mut long = call_data("check_policy");
    long.resize(1025, 0);
    assert_eq!(
        check(&good, &ExecuteTransactionArgs { policy_data: long, ..args.clone() }),
        LazorKitError::PolicyDataTooLarge
    );
    let mut other = call_data("check_policy");
    other[10] ^= 1;
    assert_eq!(
        check(&good, &ExecuteTransactionArgs { policy_data: other, ..args.clone() }),
        LazorKitError::InvalidInstructionData
    );
    let mut ctx = good.clone();
    ctx.remaining_accounts[0].is_writable = true;
    assert_eq!(check(&ctx, &args), LazorKitError::InvalidAccountData);
    let mut ctx = good.clone();
    ctx.remaining_accounts[0].is_signer = true;
    assert_eq!(check(&ctx, &args), LazorKitError::InvalidAccountData);
    assert_eq!(
        check(&good, &ExecuteTransactionArgs { cpi_data: vec![], ..args.clone() }),
        LazorKitError::CpiDataMissing
    );
    assert_eq!(
        check(&good, &ExecuteTransactionArgs { cpi_data: vec![0; 1025], ..args.clone() }),
        LazorKitError::CpiDataTooLarge
    );
    let mut ctx = good.clone();
    ctx.remaining_accounts[2].is_writable = false;
    assert_eq!(check(&ctx, &args), LazorKitError::InvalidAccountData);
    let mut ctx = good.clone();
    ctx.cpi_program = program(key(0x50));
    assert_eq!(check(&ctx, &args), LazorKitError::InvalidAccountData);
    assert_eq!(
        check(&good, &ExecuteTransactionArgs { split_index: 2, ..args.clone() }),
        LazorKitError::InvalidAccountData
    );
    assert!(try_execute_transaction(&good, &args, &verify, NOW).is_ok());
}

#[test]
fn native_transfer_is_validated() {
    let wallet = create_wallet();
    let data = wallet.data;
    let system = program(system_program_id());
    let payer_key = key(2);
    let run = |wallet_account: &mut AccountInfo, accounts: &mut Vec<AccountInfo>, cpi: &[u8]| {
        dispatch_wallet_action(wallet_account, &data, FEE, &payer_key, &system, accounts, 0, cpi, RENT)
    };
    let fresh = || (wallet.account, vec![wallet.account, account(key(0x30))]);

    let (mut w, mut accounts) = fresh();
    assert_eq!(
        run(&mut w, &mut vec![accounts[0]], &transfer_data(5)).err(),
        Some(EngineError::Wallet(LazorKitError::SolTransferInsufficientAccounts))
    );
    assert_eq!(
        run(&mut w, &mut accounts, &[2, 0, 0, 0, 1, 2]).err(),
        Some(EngineError::Wallet(LazorKitError::InvalidCpiData))
    );
    assert_eq!(
        run(&mut w, &mut accounts, &transfer_data(0)).err(),
        Some(EngineError::Wallet(LazorKitError::InvalidTransferAmount))
    );
    assert_eq!(
        run(&mut w, &mut accounts, &transfer_data(u64::MAX / 2 + 1)).err(),
        Some(EngineError::Wallet(LazorKitError::InsufficientLamports))
    );
    assert_eq!(
        run(&mut w, &mut accounts, &transfer_data(u64::MAX)).err(),
        Some(EngineError::Wallet(LazorKitError::IntegerOverflow))
    );
    let mut to_self = vec![wallet.account, wallet.account];
    assert_eq!(
        run(&mut w, &mut to_self, &transfer_data(5)).err(),
        Some(EngineError::Wallet(LazorKitError::InvalidAccountData))
    );
    assert_eq!(
        run(&mut w, &mut accounts, &transfer_data(START - FEE - RENT + 1)).err(),
        Some(EngineError::Wallet(LazorKitError::InsufficientLamports))
    );
    assert_eq!((w.lamports, accounts[1].lamports), (START, 0));
    let mut foreign = AccountInfo { owner: key(0x12), ..wallet.account };
    assert_eq!(
        run(&mut foreign, &mut accounts, &transfer_data(5)).err(),
        Some(EngineError::Program(ProgramFault { code: lazorkit::error::ILLEGAL_OWNER }))
    );
    accounts[1].lamports = u64::MAX;
    assert_eq!(run(&mut w, &mut accounts, &transfer_data(5)).err(), Some(EngineError::Wallet(LazorKitError::IntegerOverflow)));
    accounts[1].lamports = 0;

    let r = run(&mut w, &mut accounts, &transfer_data(START - FEE - RENT)).unwrap();
    assert!(matches!(r, WalletAction::Transfer { destination: 1, amount } if amount == START - FEE - RENT));
    assert_eq!((w.lamports, accounts[1].lamports), (FEE + RENT, START - FEE - RENT));

    let mut trailing = transfer_data(9);
    trailing.extend_from_slice(&[0xee; 4]);
    let (mut w, mut accounts) = fresh();
    assert!(run(&mut w, &mut accounts, &trailing).is_ok());
    assert_eq!(accounts[1].lamports, 9);
}

#[test]
fn other_instructions_become_invocations() {
    let wallet = create_wallet();
    let data = wallet.data;
    let payer_key = key(2);
    let target = program(key(0x50));
    let mut w = wallet.account;
    let payer_account = AccountInfo { is_signer: true, ..account(payer_key) };
    let mut accounts = vec![account(key(0x40)), wallet.account, payer_account, account(key(0x30))];
    let cpi = vec![9u8, 8, 7];
    let r = dispatch_wallet_action(&mut w, &data, FEE, &payer_key, &target, &mut accounts, 1, &cpi, RENT)
        .unwrap();
    match r {
        WalletAction::Invoke(call) => {
            assert_eq!(call.instruction.program_id, key(0x50));
            assert_eq!(call.instruction.data, cpi);
            assert_eq!(call.instruction.accounts.len(), 3);
            assert_eq!(call.instruction.accounts[0].pubkey, wallet.account.key);
            assert!(call.instruction.accounts[0].is_signer);
            assert!(call.instruction.accounts[0].is_writable);
            assert!(call.instruction.accounts[1].is_signer);
            assert!(!call.instruction.accounts[2].is_signer);
            assert_eq!(call.signer_seeds[0], b"smart_wallet".to_vec());
            assert_eq!(call.signer_seeds[1], 7u64.to_le_bytes().to_vec());
            assert_eq!(call.signer_seeds[2], vec![data.bump]);
        },
        other => panic!("expected an invocation, got {:?}", other),
    }
    assert_eq!(w.lamports, START);

    let system = program(system_program_id());
    let r = dispatch_wallet_action(&mut w, &data, FEE, &payer_key, &system, &mut accounts, 1, &cpi, RENT);
    assert!(matches!(r, Ok(WalletAction::Invoke(_))));
    let r = dispatch_wallet_action(
        &mut w, &data, FEE, &payer_key, &target, &mut accounts, 1, &transfer_data(5), RENT,
    );
    assert!(matches!(r, Ok(WalletAction::Invoke(_))));

    let not_executable = account(key(0x50));
    let r = dispatch_wallet_action(
        &mut w, &data, FEE, &payer_key, &not_executable, &mut accounts, 1, &cpi, RENT,
    );
    assert_eq!(r.err(), Some(EngineError::Wallet(LazorKitError::ProgramNotExecutable)));
    let r = dispatch_wallet_action(&mut w, &data, FEE, &payer_key, &target, &mut accounts, 4, &cpi, RENT);
    assert_eq!(r.err(), Some(EngineError::Wallet(LazorKitError::InsufficientCpiAccounts)));
    let r = dispatch_wallet_action(&mut w, &data, FEE, &payer_key, &target, &mut accounts, 5, &cpi, RENT);
    assert_eq!(r.err(), Some(EngineError::Wallet(LazorKitError::AccountSliceOutOfBounds)));
}

#[test]
fn reentrant_call_is_rejected() {
    let wallet = create_wallet();
    let data = wallet.data;
    let payer_key = key(2);
    let this = program(program_id());
    let mut w = wallet.account;
    let mut accounts = vec![wallet.account, account(key(0x30))];
    for cpi in [vec![9u8, 8, 7], transfer_data(5)] {
        let r = dispatch_wallet_action(&mut w, &data, FEE, &payer_key, &this, &mut accounts, 0, &cpi, RENT);
        assert_eq!(r.err(), Some(EngineError::Wallet(LazorKitError::ReentrancyDetected)));
    }

    let mut ctx = execute_ctx(&wallet);
    ctx.cpi_program = this;
    let (args, verify) = transfer_request(&ctx, 0, 1, 1);
    try_execute_transaction(&ctx, &args, &verify, NOW).unwrap();
    let r = execute_transaction_dispatch(&mut ctx, &args, &Ok(()), RENT);
    assert_eq!(wallet_err(r), LazorKitError::ReentrancyDetected);
    assert_eq!(ctx.smart_wallet.lamports, START);
}

#[test]
fn dispatch_step_rechecks_the_split() {
    let wallet = create_wallet();
    let mut ctx = execute_ctx(&wallet);
    let (args, _) = transfer_request(&ctx, 0, 1, 1);
    let args = ExecuteTransactionArgs { split_index: 9, ..args };
    let r = execute_transaction_dispatch(&mut ctx, &args, &Ok(()), RENT);
    assert_eq!(wallet_err(r), LazorKitError::AccountSliceOutOfBounds);
}

fn try_invoke_policy(
    ctx: &InvokePolicy,
    args: &InvokePolicyArgs,
    verify: &InstructionsSysvar,
    now: i64,
) -> Result<lazorkit::instructions::invoke_policy::InvokePolicyPlan, EngineError> {
    let mut ctx = ctx.clone();
    ctx.ix_sysvar = verify.clone();
    invoke_policy(&ctx, args, now)
}

fn invoke_ctx(wallet: &Wallet, new_device: Option<AccountInfo>) -> InvokePolicy {
    let mut remaining = Vec::new();
    if let Some(d) = new_device {
        remaining.push(d);
    }
    remaining.push(account(key(0x20)));
    remaining.push(account(key(0x21)));
    InvokePolicy {
        payer: payer(),
        config: config(),
        smart_wallet: wallet.account,
        smart_wallet_data: wallet.data,
        wallet_device: wallet.device.clone(),
        policy_program: program(wallet.data.policy_program),
        policy_program_registry: registry(),
        remaining_accounts: remaining,
        ix_sysvar: sysvar_with(&[]),
    }
}

fn invoke_request(
    ctx: &InvokePolicy,
    signed: Option<[u8; 33]>,
    requested: Option<[u8; 33]>,
) -> (InvokePolicyArgs, InstructionsSysvar) {
    let policy_data = call_data("add_device");
    let first = if requested.is_some() { 1 } else { 0 };
    let message = InvokePolicyMessage {
        nonce: ctx.smart_wallet_data.last_nonce,
        current_timestamp: NOW,
        policy_data_hash: sha(&policy_data),
        policy_accounts_hash: hash_accounts(&ctx.policy_program.key, &ctx.remaining_accounts[first..]),
        new_passkey: signed,
    };
    let client_data = client_data_for(&message.serialize());
    let verify = record_for(&client_data);
    let args = InvokePolicyArgs {
        passkey_pubkey: passkey(),
        signature: signature(),
        client_data_json_raw: client_data,
        authenticator_data_raw: authenticator_data(),
        verify_instruction_index: 0,
        policy_data,
        new_authenticator: requested
            .map(|k| NewAuthenticatorArgs { passkey_pubkey: k, credential_id: vec![3; 8] }),
    };
    (args, verify)
}

#[test]
fn invoke_policy_without_new_device() {
    let wallet = create_wallet();
    let mut ctx = invoke_ctx(&wallet, None);
    let (args, verify) = invoke_request(&ctx, None, None);
    let plan = try_invoke_policy(&ctx, &args, &verify, NOW).unwrap();
    assert!(plan.new_device.is_none());
    assert_eq!(plan.policy_call.instruction.program_id, default_policy());
    assert_eq!(plan.policy_call.instruction.accounts.len(), 2);
    assert_eq!(plan.policy_call.instruction.data, args.policy_data);
    invoke_policy_finish(&mut ctx, &Ok(()), RENT).unwrap();
    assert_eq!(ctx.smart_wallet_data.last_nonce, 1);
    assert_eq!(ctx.smart_wallet.lamports, START - FEE);
    let r = try_invoke_policy(&ctx, &args, &verify, NOW);
    assert_eq!(r.err(), Some(EngineError::Wallet(LazorKitError::NonceMismatch)));
}

#[test]
fn invoke_policy_enrols_the_signed_device() {
    let wallet = create_wallet();
    let (device_key, bump) = wallet_device_address(&second_passkey(), wallet.account.key).unwrap();
    let ctx = invoke_ctx(&wallet, Some(account(device_key)));
    let (args, verify) = invoke_request(&ctx, Some(second_passkey()), Some(second_passkey()));
    let plan = try_invoke_policy(&ctx, &args, &verify, NOW).unwrap();
    let creation = plan.new_device.unwrap();
    assert_eq!(creation.address, device_key);
    assert_eq!(creation.space, 334);
    assert_eq!(creation.device.passkey_pubkey, second_passkey());
    assert_eq!(creation.device.smart_wallet, wallet.account.key);
    assert_eq!(creation.device.credential_id, vec![3; 8]);
    assert_eq!(creation.device.bump, bump);
    assert_eq!(plan.policy_call.instruction.accounts.len(), 2);
    assert_eq!(plan.policy_call.instruction.accounts[0].pubkey, key(0x20));
}

#[test]
fn invoke_policy_refuses_devices_the_challenge_does_not_name() {
    let wallet = create_wallet();
    let (device_key, _) = wallet_device_address(&second_passkey(), wallet.account.key).unwrap();
    let check = |ctx: &InvokePolicy, signed, requested| {
        let (args, verify) = invoke_request(ctx, signed, requested);
        try_invoke_policy(ctx, &args, &verify, NOW).err()
    };
    let w = |e: LazorKitError| Some(EngineError::Wallet(e));
    let ctx = invoke_ctx(&wallet, Some(account(device_key)));
    assert_eq!(check(&ctx, None, Some(second_passkey())), w(LazorKitError::PasskeyMismatch));
    assert_eq!(check(&ctx, Some(passkey()), Some(second_passkey())), w(LazorKitError::PasskeyMismatch));
    let plain = invoke_ctx(&wallet, None);
    assert_eq!(check(&plain, Some(second_passkey()), None), w(LazorKitError::PasskeyMismatch));

    let mut taken = ctx.clone();
    taken.remaining_accounts[0].data_is_empty = false;
    assert_eq!(
        check(&taken, Some(second_passkey()), Some(second_passkey())),
        w(LazorKitError::AccountAlreadyInitialized)
    );
    let elsewhere = invoke_ctx(&wallet, Some(account(key(0x46))));
    assert_eq!(
        check(&elsewhere, Some(second_passkey()), Some(second_passkey())),
        w(LazorKitError::InvalidPDADerivation)
    );
    let mut bad = second_passkey();
    bad[0] = 9;
    assert_eq!(check(&ctx, Some(bad), Some(bad)), w(LazorKitError::InvalidPasskeyFormat));
}

#[test]
fn invoke_policy_preconditions() {
    let wallet = create_wallet();
    let good = invoke_ctx(&wallet, None);
    let (args, verify) = invoke_request(&good, None, None);
    let check = |ctx: &InvokePolicy, args: &InvokePolicyArgs| {
        try_invoke_policy(ctx, args, &verify, NOW).err()
    };
    let w = |e: LazorKitError| Some(EngineError::Wallet(e));
    let mut ctx = good.clone();
    ctx.config.is_paused = true;
    assert_eq!(check(&ctx, &args), w(LazorKitError::ProgramPaused));
    let mut ctx = good.clone();
    ctx.policy_program.executable = false;
    assert_eq!(check(&ctx, &args), w(LazorKitError::ProgramNotExecutable));
    let mut ctx = good.clone();
    ctx.policy_program = program(key(0xa1));
    assert_eq!(check(&ctx, &args), w(LazorKitError::InvalidProgramAddress));
    let mut ctx = good.clone();
    ctx.policy_program_registry.programs.clear();
    assert_eq!(check(&ctx, &args), w(LazorKitError::PolicyProgramNotRegistered));
    assert_eq!(
        check(&good, &InvokePolicyArgs { policy_data: vec![0; 1025], ..args.clone() }),
        w(LazorKitError::PolicyDataTooLarge)
    );
    assert_eq!(
        check(&good, &InvokePolicyArgs { policy_data: vec![1], ..args.clone() }),
        w(LazorKitError::InvalidInstructionData)
    );
    let mut ctx = good.clone();
    ctx.remaining_accounts.pop();
    assert_eq!(check(&ctx, &args), w(LazorKitError::InvalidAccountData));
    let fault = ProgramFault { code: 77 };
    let mut ctx = good.clone();
    assert_eq!(invoke_policy_finish(&mut ctx, &Err(fault), RENT).err(), Some(EngineError::Program(fault)));
    assert_eq!(ctx.smart_wallet_data.last_nonce, 0);
}

#[test]
fn update_policy_preconditions() {
    let wallet = create_wallet();
    let a = key(0xa1);
    let good = UpdatePolicy {
        payer: payer(),
        config: config(),
        smart_wallet: wallet.account,
        smart_wallet_data: wallet.data,
        wallet_device: wallet.device.clone(),
        old_policy_program: program(default_policy()),
        new_policy_program: program(a),
        policy_program_registry: registry(),
        remaining_accounts: vec![account(key(0x20)), account(key(0x21)), account(key(0x22))],
        ix_sysvar: sysvar_with(&[]),
    };
    let request = |ctx: &UpdatePolicy| {
        let destroy = call_data("destroy");
        let init = call_data("init_policy");
        let message = UpdatePolicyMessage {
            nonce: ctx.smart_wallet_data.last_nonce,
            current_timestamp: NOW,
            old_policy_data_hash: sha(&destroy),
            old_policy_accounts_hash: hash_accounts(&ctx.old_policy_program.key, &ctx.remaining_accounts[..1]),
            new_policy_data_hash: sha(&init),
            new_policy_accounts_hash: hash_accounts(&ctx.new_policy_program.key, &ctx.remaining_accounts[1..]),
        };
        let client_data = client_data_for(&message.serialize());
        let verify = record_for(&client_data);
        let args = UpdatePolicyArgs {
            passkey_pubkey: passkey(),
            signature: signature(),
            client_data_json_raw: client_data,
            authenticator_data_raw: authenticator_data(),
            verify_instruction_index: 0,
            split_index: 1,
            destroy_policy_data: destroy,
            init_policy_data: init,
            new_authenticator: None,
        };
        (args, verify)
    };
    let (args, verify) = request(&good);
    let check = |ctx: &UpdatePolicy, args: &UpdatePolicyArgs| try_update_policy(ctx, args, &verify, NOW).err();
    let w = |e: LazorKitError| Some(EngineError::Wallet(e));
    assert!(try_update_policy(&good, &args, &verify, NOW).is_ok());

    let mut ctx = good.clone();
    ctx.new_policy_program.executable = false;
    assert_eq!(check(&ctx, &args), w(LazorKitError::ProgramNotExecutable));
    let mut ctx = good.clone();
    ctx.new_policy_program = program(key(0x99));
    assert_eq!(check(&ctx, &args), w(LazorKitError::PolicyProgramNotRegistered));
    let mut ctx = good.clone();
    ctx.old_policy_program = program(a);
    ctx.new_policy_program = program(default_policy());
    assert_eq!(check(&ctx, &args), w(LazorKitError::InvalidProgramAddress));
    let mut ctx = good.clone();
    ctx.new_policy_program = program(default_policy());
    assert_eq!(check(&ctx, &args), w(LazorKitError::PolicyProgramsIdentical));
    assert_eq!(
        check(&good, &UpdatePolicyArgs { split_index: 4, ..args.clone() }),
        w(LazorKitError::AccountSliceOutOfBounds)
    );
    assert_eq!(
        check(&good, &UpdatePolicyArgs { split_index: 2, ..args.clone() }),
        w(LazorKitError::InvalidAccountData)
    );
    let swapped = UpdatePolicyArgs {
        destroy_policy_data: args.init_policy_data.clone(),
        ..args.clone()
    };
    assert_eq!(check(&good, &swapped), w(LazorKitError::InvalidDestroyDiscriminator));
    let swapped = UpdatePolicyArgs { init_policy_data: args.destroy_policy_data.clone(), ..args.clone() };
    assert_eq!(check(&good, &swapped), w(LazorKitError::InvalidInitPolicyDiscriminator));
    let mut changed = args.clone();
    changed.init_policy_data.push(0);
    assert_eq!(check(&good, &changed), w(LazorKitError::InvalidInstructionData));
    let mut changed = args.clone();
    changed.destroy_policy_data.push(0);
    assert_eq!(check(&good, &changed), w(LazorKitError::InvalidInstructionData));
    let with_device = UpdatePolicyArgs {
        new_authenticator: Some(NewAuthenticatorArgs {
            passkey_pubkey: second_passkey(),
            credential_id: vec![1],
        }),
        split_index: 3,
        ..args.clone()
    };
    assert_eq!(check(&good, &with_device), w(LazorKitError::AccountSliceOutOfBounds));
}

#[test]
fn update_policy_enrols_a_device() {
    let wallet = create_wallet();
    let (device_key, _) = wallet_device_address(&second_passkey(), wallet.account.key).unwrap();
    let ctx = UpdatePolicy {
        payer: payer(),
        config: config(),
        smart_wallet: wallet.account,
        smart_wallet_data: wallet.data,
        wallet_device: wallet.device.clone(),
        old_policy_program: program(default_policy()),
        new_policy_program: program(key(0xa1)),
        policy_program_registry: registry(),
        remaining_accounts: vec![account(device_key), account(key(0x20)), account(key(0x21))],
        ix_sysvar: sysvar_with(&[]),
    };
    let destroy = call_data("destroy");
    let init = call_data("init_policy");
    let message = UpdatePolicyMessage {
        nonce: 0,
        current_timestamp: NOW,
        old_policy_data_hash: sha(&destroy),
        old_policy_accounts_hash: hash_accounts(&default_policy(), &ctx.remaining_accounts[1..2]),
        new_policy_data_hash: sha(&init),
        new_policy_accounts_hash: hash_accounts(&key(0xa1), &ctx.remaining_accounts[2..]),
    };
    let client_data = client_data_for(&message.serialize());
    let verify = record_for(&client_data);
    let args = UpdatePolicyArgs {
        passkey_pubkey: passkey(),
        signature: signature(),
        client_data_json_raw: client_data,
        authenticator_data_raw: authenticator_data(),
        verify_instruction_index: 0,
        split_index: 1,
        destroy_policy_data: destroy,
        init_policy_data: init,
        new_authenticator: Some(NewAuthenticatorArgs {
            passkey_pubkey: second_passkey(),
            credential_id: vec![4; 4],
        }),
    };
    let plan = try_update_policy(&ctx, &args, &verify, NOW).unwrap();
    assert_eq!(plan.new_device.unwrap().address, device_key);
    assert_eq!(plan.destroy.instruction.accounts[0].pubkey, key(0x20));
    assert_eq!(plan.init.instruction.accounts[0].pubkey, key(0x21));
}

#[test]
fn enrolment_needs_an_account() {
    let wallet = create_wallet();
    let request = Some(NewAuthenticatorArgs { passkey_pubkey: second_passkey(), credential_id: vec![1] });
    assert_eq!(
        enrol_device(&request, &[], wallet.account.key).err(),
        Some(LazorKitError::InvalidRemainingAccounts)
    );
    assert!(enrol_device(&None, &[], wallet.account.key).unwrap().is_none());
}

#[test]
fn dispatcher_routes_by_action() {
    let wallet = create_wallet();
    let inner = execute_ctx(&wallet);
    let (args, verify) = transfer_request(&inner, 0, 1_000_000, 1_000_000);
    let mut inner = inner;
    inner.ix_sysvar = verify.clone();
    let mut ctx = Execute::ExecuteTransaction(inner.clone());
    let all = ExecuteArgs::ExecuteTransaction(args.clone());
    assert_eq!(ctx.action(), Action::ExecuteTransaction);
    assert_eq!(all.action(), Action::ExecuteTransaction);
    let plan = execute(&ctx, &all, NOW).unwrap();
    let direct = execute_transaction(&inner, &args, NOW).unwrap();
    match plan {
        ExecutePlan::ExecuteTransaction(call) => {
            assert_eq!(call.instruction.data, direct.instruction.data);
            assert_eq!(call.signer_seeds, direct.signer_seeds);
        },
        other => panic!("expected a policy check, got {:?}", other),
    }
    execute_finish(&mut ctx, &Ok(()), RENT).unwrap();
    match &ctx {
        Execute::ExecuteTransaction(c) => assert_eq!(c.smart_wallet_data.last_nonce, 1),
        other => panic!("accounts changed their action: {:?}", other),
    }

    let mut invoke = invoke_ctx(&wallet, None);
    let (invoke_args, invoke_verify) = invoke_request(&invoke, None, None);
    invoke.ix_sysvar = invoke_verify;
    let r = execute(&Execute::InvokePolicy(invoke.clone()), &all, NOW);
    assert_eq!(r.err(), Some(EngineError::Wallet(LazorKitError::InvalidActionType)));
    let r = execute(&Execute::InvokePolicy(invoke), &ExecuteArgs::InvokePolicy(invoke_args), NOW);
    assert!(matches!(r, Ok(ExecutePlan::InvokePolicy(_))));
}

#[test]
fn finish_consumes_the_nonce_for_the_next_request() {
    let wallet = create_wallet();
    let mut ctx = execute_ctx(&wallet);
    for nonce in 0..3u64 {
        let (args, verify) = transfer_request(&ctx, nonce, 1_000, 1_000);
        try_execute_transaction(&ctx, &args, &verify, NOW).unwrap();
        execute_transaction_dispatch(&mut ctx, &args, &Ok(()), RENT).unwrap();
        execute_transaction_finish(&mut ctx, &Ok(()), RENT).unwrap();
        assert_eq!(ctx.smart_wallet_data.last_nonce, nonce + 1);
        ctx.remaining_accounts[1] = ctx.smart_wallet;
    }
    assert_eq!(ctx.smart_wallet.lamports, START - 3 * (1_000 + FEE));
    assert_eq!(ctx.remaining_accounts[2].lamports, 500 + 3_000);
}

#[test]
fn large_transfers_are_limited_by_the_balance_only() {
    let wallet = create_wallet();
    let data = wallet.data;
    let payer_key = key(2);
    let system = program(system_program_id());
    let mut w = AccountInfo { lamports: u64::MAX, ..wallet.account };
    let mut accounts = vec![w, account(key(0x30))];
    let amount = u64::MAX - FEE - RENT;
    let r = dispatch_wallet_action(
        &mut w, &data, FEE, &payer_key, &system, &mut accounts, 0, &transfer_data(amount), RENT,
    );
    assert!(matches!(r, Ok(WalletAction::Transfer { destination: 1, .. })));
    assert_eq!((w.lamports, accounts[1].lamports), (FEE + RENT, amount));
}

#[test]
fn new_policy_is_initialised_only_after_the_old_is_destroyed() {
    let wallet = create_wallet();
    let ctx = UpdatePolicy {
        payer: payer(),
        config: config(),
        smart_wallet: wallet.account,
        smart_wallet_data: wallet.data,
        wallet_device: wallet.device.clone(),
        old_policy_program: program(default_policy()),
        new_policy_program: program(key(0xa1)),
        policy_program_registry: registry(),
        remaining_accounts: vec![account(key(0x20)), account(key(0x21))],
        ix_sysvar: sysvar_with(&[]),
    };
    let destroy = call_data("destroy");
    let init = call_data("init_policy");
    let message = UpdatePolicyMessage {
        nonce: 0,
        current_timestamp: NOW,
        old_policy_data_hash: sha(&destroy),
        old_policy_accounts_hash: hash_accounts(&default_policy(), &ctx.remaining_accounts[..1]),
        new_policy_data_hash: sha(&init),
        new_policy_accounts_hash: hash_accounts(&key(0xa1), &ctx.remaining_accounts[1..]),
    };
    let client_data = client_data_for(&message.serialize());
    let verify = record_for(&client_data);
    let args = UpdatePolicyArgs {
        passkey_pubkey: passkey(),
        signature: signature(),
        client_data_json_raw: client_data,
        authenticator_data_raw: authenticator_data(),
        verify_instruction_index: 0,
        split_index: 1,
        destroy_policy_data: destroy,
        init_policy_data: init.clone(),
        new_authenticator: None,
    };
    let plan = try_update_policy(&ctx, &args, &verify, NOW).unwrap();
    let next = update_policy_init(&plan, &Ok(())).unwrap();
    assert_eq!(next.instruction.program_id, key(0xa1));
    assert_eq!(next.instruction.data, init);
    let fault = ProgramFault { code: 6003 };
    assert_eq!(update_policy_init(&plan, &Err(fault)).err(), Some(EngineError::Program(fault)));
}
