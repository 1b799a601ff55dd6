//! Arguments of the entry points and the checks made on them before
//! anything else.

use vstd::prelude::*;
use crate::error::LazorKitError;

verus! {

/// First byte of a compressed point with even `y`.
pub const COMPRESSED_EVEN: u8 = 0x02;

/// First byte of a compressed point with odd `y`.
pub const COMPRESSED_ODD: u8 = 0x03;

/// Length of a secp256r1 signature.
pub const SIGNATURE_LEN: usize = 64;

/// A passkey is a compressed point: it starts with `0x02` or `0x03`.
pub open spec fn is_compressed_point(passkey: Seq<u8>) -> bool {
    passkey.len() == 33 && (passkey[0] == COMPRESSED_EVEN || passkey[0] == COMPRESSED_ODD)
}

/// Tests the first byte of a passkey.
pub fn has_passkey_format(passkey: &[u8; 33]) -> (r: bool)
    ensures
        r == is_compressed_point(passkey@),
{
    passkey[0] == COMPRESSED_EVEN || passkey[0] == COMPRESSED_ODD
}

/// Verdict on the part of the arguments every authorised action shares:
/// the passkey is a compressed point, the signature has 64 bytes,
/// `clientDataJSON` and `authenticatorData` are not empty, and the
/// index of the verification record is below 255.
pub open spec fn validate_envelope_spec(
    passkey_pubkey: Seq<u8>,
    signature: Seq<u8>,
    client_data_json_raw: Seq<u8>,
    authenticator_data_raw: Seq<u8>,
    verify_instruction_index: u8,
) -> Result<(), LazorKitError> {
    if !is_compressed_point(passkey_pubkey) {
        Err(LazorKitError::InvalidPasskeyFormat)
    } else if signature.len() != SIGNATURE_LEN {
        Err(LazorKitError::InvalidSignature)
    } else if client_data_json_raw.len() == 0 || authenticator_data_raw.len() == 0
        || verify_instruction_index == 255 {
        Err(LazorKitError::InvalidInstructionData)
    } else {
        Ok(())
    }
}

/// Checks the part of the arguments every authorised action shares.
pub fn validate_envelope(
    passkey_pubkey: &[u8; 33],
    signature: &[u8],
    client_data_json_raw: &[u8],
    authenticator_data_raw: &[u8],
    verify_instruction_index: u8,
) -> (r: Result<(), LazorKitError>)
    ensures
        r == validate_envelope_spec(
            passkey_pubkey@,
            signature@,
            client_data_json_raw@,
            authenticator_data_raw@,
            verify_instruction_index,
        ),
{
    if !has_passkey_format(passkey_pubkey) {
        return Err(LazorKitError::InvalidPasskeyFormat);
    }
    if signature.len() != SIGNATURE_LEN {
        return Err(LazorKitError::InvalidSignature);
    }
    if client_data_json_raw.len() == 0 {
        return Err(LazorKitError::InvalidInstructionData);
    }
    if authenticator_data_raw.len() == 0 {
        return Err(LazorKitError::InvalidInstructionData);
    }
    if verify_instruction_index == 255 {
        return Err(LazorKitError::InvalidInstructionData);
    }
    Ok(())
}

/// Arguments that can be validated on their own.
pub trait Args {
    /// Verdict on the arguments.
    spec fn validate_spec(&self) -> Result<(), LazorKitError>;

    /// Checks the arguments.
    fn validate(&self) -> (r: Result<(), LazorKitError>)
        ensures
            r == self.validate_spec(),
    ;
}

/// A device to enrol along with an action.
#[derive(Clone, Debug)]
pub struct NewAuthenticatorArgs {
    pub passkey_pubkey: [u8; 33],
    pub credential_id: Vec<u8>,
}

/// Arguments of `execute_transaction`.
#[derive(Clone, Debug)]
pub struct ExecuteTransactionArgs {
    pub passkey_pubkey: [u8; 33],
    pub signature: Vec<u8>,
    pub client_data_json_raw: Vec<u8>,
    pub authenticator_data_raw: Vec<u8>,
    pub verify_instruction_index: u8,
    /// Number of remaining accounts that belong to the policy call.
    pub split_index: u16,
    pub policy_data: Vec<u8>,
    pub cpi_data: Vec<u8>,
}

/// Arguments of `invoke_policy`.
#[derive(Clone, Debug)]
pub struct InvokePolicyArgs {
    pub passkey_pubkey: [u8; 33],
    pub signature: Vec<u8>,
    pub client_data_json_raw: Vec<u8>,
    pub authenticator_data_raw: Vec<u8>,
    pub verify_instruction_index: u8,
    pub policy_data: Vec<u8>,
    pub new_authenticator: Option<NewAuthenticatorArgs>,
}

/// Arguments of `update_policy`.
#[derive(Clone, Debug)]
pub struct UpdatePolicyArgs {
    pub passkey_pubkey: [u8; 33],
    pub signature: Vec<u8>,
    pub client_data_json_raw: Vec<u8>,
    pub authenticator_data_raw: Vec<u8>,
    pub verify_instruction_index: u8,
    /// Number of accounts that belong to the call that destroys the
    /// old policy.
    pub split_index: u16,
    pub destroy_policy_data: Vec<u8>,
    pub init_policy_data: Vec<u8>,
    pub new_authenticator: Option<NewAuthenticatorArgs>,
}

/// Arguments of `commit_cpi`.
#[derive(Clone, Debug)]
pub struct CommitArgs {
    pub passkey_pubkey: [u8; 33],
    pub signature: Vec<u8>,
    pub client_data_json_raw: Vec<u8>,
    pub authenticator_data_raw: Vec<u8>,
    pub verify_instruction_index: u8,
    pub policy_data: Vec<u8>,
    /// Time after which the commitment can no longer be executed.
    pub expires_at: i64,
}

/// Arguments of `create_smart_wallet`.
#[derive(Clone, Debug)]
pub struct CreateSmartWalletArgs {
    pub passkey_pubkey: [u8; 33],
    pub credential_id: Vec<u8>,
    pub policy_data: Vec<u8>,
    pub wallet_id: u64,
    /// The payer covers the creation fee.
    pub is_pay_for_user: bool,
}

impl Args for ExecuteTransactionArgs {
    open spec fn validate_spec(&self) -> Result<(), LazorKitError> {
        validate_envelope_spec(
            self.passkey_pubkey@,
            self.signature@,
            self.client_data_json_raw@,
            self.authenticator_data_raw@,
            self.verify_instruction_index,
        )
    }

    fn validate(&self) -> (r: Result<(), LazorKitError>) {
        validate_envelope(
            &self.passkey_pubkey,
            self.signature.as_slice(),
            self.client_data_json_raw.as_slice(),
            self.authenticator_data_raw.as_slice(),
            self.verify_instruction_index,
        )
    }
}

impl Args for InvokePolicyArgs {
    open spec fn validate_spec(&self) -> Result<(), LazorKitError> {
        validate_envelope_spec(
            self.passkey_pubkey@,
            self.signature@,
            self.client_data_json_raw@,
            self.authenticator_data_raw@,
            self.verify_instruction_index,
        )
    }

    fn validate(&self) -> (r: Result<(), LazorKitError>) {
        validate_envelope(
            &self.passkey_pubkey,
            self.signature.as_slice(),
            self.client_data_json_raw.as_slice(),
            self.authenticator_data_raw.as_slice(),
            self.verify_instruction_index,
        )
    }
}

impl Args for UpdatePolicyArgs {
    open spec fn validate_spec(&self) -> Result<(), LazorKitError> {
        validate_envelope_spec(
            self.passkey_pubkey@,
            self.signature@,
            self.client_data_json_raw@,
            self.authenticator_data_raw@,
            self.verify_instruction_index,
        )
    }

    fn validate(&self) -> (r: Result<(), LazorKitError>) {
        validate_envelope(
            &self.passkey_pubkey,
            self.signature.as_slice(),
            self.client_data_json_raw.as_slice(),
            self.authenticator_data_raw.as_slice(),
            self.verify_instruction_index,
        )
    }
}

impl Args for CommitArgs {
    /// A commitment must, beyond the shared checks, carry policy data.
    open spec fn validate_spec(&self) -> Result<(), LazorKitError> {
        match validate_envelope_spec(
            self.passkey_pubkey@,
            self.signature@,
            self.client_data_json_raw@,
            self.authenticator_data_raw@,
            self.verify_instruction_index,
        ) {
            Err(e) => Err(e),
            Ok(_) => if self.policy_data@.len() == 0 {
                Err(LazorKitError::InvalidInstructionData)
            } else {
                Ok(())
            },
        }
    }

    fn validate(&self) -> (r: Result<(), LazorKitError>) {
        match validate_envelope(
            &self.passkey_pubkey,
            self.signature.as_slice(),
            self.client_data_json_raw.as_slice(),
            self.authenticator_data_raw.as_slice(),
            self.verify_instruction_index,
        ) {
            Err(e) => Err(e),
            Ok(_) => if self.policy_data.len() == 0 {
                Err(LazorKitError::InvalidInstructionData)
            } else {
                Ok(())
            },
        }
    }
}

} // verus!
