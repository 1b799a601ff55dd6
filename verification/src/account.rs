//! Plain-value model of the accounts and instructions the host runtime
//! hands to the engine.

use vstd::prelude::*;
use crate::pubkey::Pubkey;

verus! {

/// What the engine reads of an account passed to it.
#[derive(Clone, Copy, Debug)]
pub struct AccountInfo {
    /// Address of the account.
    pub key: Pubkey,
    /// Program that owns the account.
    pub owner: Pubkey,
    /// Balance in lamports.
    pub lamports: u64,
    /// The account signed the transaction.
    pub is_signer: bool,
    /// The transaction may write to the account.
    pub is_writable: bool,
    /// The account holds a program.
    pub executable: bool,
    /// The account holds no data.
    pub data_is_empty: bool,
}

/// An account as it is named in an instruction.
#[derive(Clone, Copy, Debug)]
pub struct AccountMeta {
    pub pubkey: Pubkey,
    pub is_signer: bool,
    pub is_writable: bool,
}

/// An instruction addressed to a program.
#[derive(Clone, Debug)]
pub struct Instruction {
    pub program_id: Pubkey,
    pub accounts: Vec<AccountMeta>,
    pub data: Vec<u8>,
}

/// Mathematical content of an [`Instruction`].
pub struct InstructionView {
    pub program_id: Pubkey,
    pub accounts: Seq<AccountMeta>,
    pub data: Seq<u8>,
}

impl View for Instruction {
    type V = InstructionView;

    open spec fn view(&self) -> InstructionView {
        InstructionView {
            program_id: self.program_id,
            accounts: self.accounts@,
            data: self.data@,
        }
    }
}

/// The account through which the runtime shows a program the
/// instructions of the transaction it runs in.
#[derive(Clone, Debug)]
pub struct InstructionsSysvar {
    /// Address of the account.
    pub key: Pubkey,
    /// Data of the account.
    pub data: Vec<u8>,
}

} // verus!
