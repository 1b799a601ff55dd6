//! Errors reported by the wallet engine.

use vstd::prelude::*;

verus! {

/// Every failure the engine itself can report.
#[derive(Clone, Copy, Debug, PartialEq, Eq, Structural, Hash)]
pub enum LazorKitError {
    // Passkey authentication.
    InvalidPasskeyFormat,
    InvalidSignature,
    PasskeyMismatch,
    SmartWalletMismatch,
    // Verification record of the secp256r1 precompile.
    Secp256r1InvalidLength,
    Secp256r1HeaderMismatch,
    Secp256r1DataMismatch,
    // WebAuthn envelope and challenge.
    ClientDataInvalidUtf8,
    ClientDataJsonParseError,
    ChallengeMissing,
    ChallengeBase64DecodeError,
    ChallengeDeserializationError,
    // Nonce and freshness.
    NonceMismatch,
    NonceOverflow,
    TimestampTooOld,
    TimestampTooNew,
    TransactionTooOld,
    RateLimitExceeded,
    // Bindings and payloads.
    InvalidInstructionData,
    InvalidAccountData,
    InvalidCpiData,
    CpiDataTooLarge,
    CpiDataMissing,
    PolicyDataTooLarge,
    CredentialIdTooLarge,
    CredentialIdEmpty,
    TooManyRemainingAccounts,
    InvalidRemainingAccounts,
    AccountSliceOutOfBounds,
    InsufficientPolicyAccounts,
    InsufficientCpiAccounts,
    SolTransferInsufficientAccounts,
    // Policy programs.
    PolicyProgramNotRegistered,
    InvalidProgramAddress,
    ProgramNotExecutable,
    ReentrancyDetected,
    InvalidCheckPolicyDiscriminator,
    InvalidDestroyDiscriminator,
    InvalidInitPolicyDiscriminator,
    NoDefaultPolicyProgram,
    PolicyProgramsIdentical,
    WhitelistFull,
    // Balances.
    InsufficientBalanceForFee,
    InsufficientLamports,
    InvalidTransferAmount,
    TransferAmountOverflow,
    IntegerOverflow,
    // Accounts and configuration.
    ProgramPaused,
    AccountAlreadyInitialized,
    InvalidAccountOwner,
    InvalidPDADerivation,
    InvalidBumpSeed,
    InvalidSequenceNumber,
    InvalidAuthority,
    InvalidActionType,
}

/// A failure reported by the host runtime or by a program the engine
/// invoked; the engine passes it on unchanged.
#[derive(Clone, Copy, Debug, PartialEq, Eq, Structural, Hash)]
pub struct ProgramFault {
    pub code: u64,
}

/// Outcome of an engine operation that depends on the host runtime.
#[derive(Clone, Copy, Debug, PartialEq, Eq, Structural, Hash)]
pub enum EngineError {
    /// The engine rejected the request.
    Wallet(LazorKitError),
    /// The runtime or an invoked program failed.
    Program(ProgramFault),
}

/// Code by which the runtime reports that a program tried to change
/// an account it does not own.
pub const ILLEGAL_OWNER: u64 = 0x12_0000_0000;

impl LazorKitError {
    /// Wraps the error for operations that may also see runtime faults.
    pub fn into_engine(self) -> (e: EngineError)
        ensures
            e == EngineError::Wallet(self),
    {
        EngineError::Wallet(self)
    }
}

} // verus!
