//! Records the engine persists: configuration, registry of policy
//! programs, wallets, devices and transaction sessions.

use vstd::prelude::*;
use crate::error::LazorKitError;
use crate::pubkey::Pubkey;

verus! {

/// Seed prefix of the address of a smart wallet.
pub const SMART_WALLET_SEED: [u8; 12] = [115, 109, 97, 114, 116, 95, 119, 97, 108, 108, 101, 116];

/// Seed prefix of the address of the configuration record.
pub const CONFIG_SEED: [u8; 6] = [99, 111, 110, 102, 105, 103];

/// Seed prefix of the address of a wallet's data record.
pub const SMART_WALLET_DATA_SEED: [u8; 17] = [
    115, 109, 97, 114, 116, 95, 119, 97, 108, 108, 101, 116, 95, 100, 97, 116, 97,
];

/// Seed prefix of the address of a device record.
pub const WALLET_DEVICE_SEED: [u8; 26] = [
    115, 109, 97, 114, 116, 95, 119, 97, 108, 108, 101, 116, 95, 97, 117, 116, 104, 101, 110, 116,
    105, 99, 97, 116, 111, 114,
];

/// Seed prefix of the address of the registry of policy programs.
pub const POLICY_PROGRAM_REGISTRY_SEED: [u8; 23] = [
    119, 104, 105, 116, 101, 108, 105, 115, 116, 95, 114, 117, 108, 101, 95, 112, 114, 111, 103,
    114, 97, 109, 115,
];

/// Seed prefix of the address of a transaction session.
pub const TRANSACTION_SESSION_SEED: [u8; 19] = [
    116, 114, 97, 110, 115, 97, 99, 116, 105, 111, 110, 95, 115, 101, 115, 115, 105, 111, 110,
];

/// Largest number of policy programs the registry holds.
pub const MAX_POLICY_PROGRAMS: usize = 32;

/// Process-wide configuration.
#[derive(Clone, Copy, Debug)]
pub struct Config {
    /// Key allowed to change the configuration and the registry.
    pub authority: Pubkey,
    /// Fee for creating a wallet, in lamports.
    pub create_smart_wallet_fee: u64,
    /// Fee for an authorised action, in lamports.
    pub execute_fee: u64,
    /// Policy program given to new wallets.
    pub default_policy_program: Pubkey,
    /// While set, no wallet action is accepted.
    pub is_paused: bool,
}

/// Which field of the configuration an update changes.
#[derive(Clone, Copy, Debug, PartialEq, Eq, Structural)]
pub enum UpdateConfigType {
    CreateWalletFee,
    ExecuteFee,
    DefaultPolicyProgram,
    Admin,
    PauseProgram,
    UnpauseProgram,
}

/// The policy programs allowed to mediate wallets, in the order they
/// were registered.
#[derive(Clone, Debug)]
pub struct PolicyProgramRegistry {
    pub programs: Vec<Pubkey>,
}

impl View for PolicyProgramRegistry {
    type V = Seq<Pubkey>;

    open spec fn view(&self) -> Seq<Pubkey> {
        self.programs@
    }
}

impl PolicyProgramRegistry {
    /// The registry respects its capacity and lists no program twice.
    pub open spec fn wf(&self) -> bool {
        &&& self@.len() <= MAX_POLICY_PROGRAMS
        &&& self@.no_duplicates()
    }

    /// Tests whether `program` is registered.
    pub fn contains(&self, program: &Pubkey) -> (r: bool)
        ensures
            r == self@.contains(*program),
    {
        let mut i: usize = 0;
        while i < self.programs.len()
            invariant
                i <= self.programs@.len(),
                forall|j: int| 0 <= j < i ==> self.programs@[j] != *program,
            decreases self.programs@.len() - i,
        {
            proof {
                Pubkey::lemma_view_injective(self.programs@[i as int], *program);
            }
            if self.programs[i] == *program {
                return true;
            }
            i += 1;
        }
        false
    }
}

/// Configuration of one smart wallet.
#[derive(Clone, Copy, Debug)]
pub struct SmartWalletData {
    /// Identifier the wallet's address is derived from; never zero.
    pub id: u64,
    /// Policy program that vets the wallet's actions.
    pub policy_program: Pubkey,
    /// Nonce the next authorised action must carry.
    pub last_nonce: u64,
    /// Bump seed of the wallet's address.
    pub bump: u8,
}

/// A passkey registered to a wallet.
#[derive(Clone, Debug)]
pub struct WalletDevice {
    /// Compressed P-256 public key.
    pub passkey_pubkey: [u8; 33],
    /// Wallet the passkey belongs to.
    pub smart_wallet: Pubkey,
    /// Credential identifier given by the authenticator.
    pub credential_id: Vec<u8>,
    /// Bump seed of the record's address.
    pub bump: u8,
}

/// An authorised action stored for later execution.
#[derive(Clone, Copy, Debug)]
pub struct TransactionSession {
    /// Wallet that authorised the action.
    pub owner_wallet: Pubkey,
    /// Digest of the instruction data to execute.
    pub data_hash: [u8; 32],
    /// Commitment to the target program and its accounts.
    pub accounts_hash: [u8; 32],
    /// Nonce that was consumed when the session was made.
    pub authorized_nonce: u64,
    /// Time after which the session can no longer be executed.
    pub expires_at: i64,
    /// Account that receives the rent when the session is closed.
    pub rent_refund_to: Pubkey,
}

/// Verdict on a program offered as mediator: it must be registered.
pub open spec fn check_whitelist_spec(registry: Seq<Pubkey>, program: Pubkey) -> Result<
    (),
    LazorKitError,
> {
    if registry.contains(program) {
        Ok(())
    } else {
        Err(LazorKitError::PolicyProgramNotRegistered)
    }
}

/// Checks that `program` is in the registry.
pub fn check_whitelist(registry: &PolicyProgramRegistry, program: &Pubkey) -> (r: Result<
    (),
    LazorKitError,
>)
    ensures
        r == check_whitelist_spec(registry@, *program),
{
    if registry.contains(program) {
        Ok(())
    } else {
        Err(LazorKitError::PolicyProgramNotRegistered)
    }
}

} // verus!
