use lazorkit::account::{AccountMeta, Instruction};
use lazorkit::error::LazorKitError;
use lazorkit::pubkey::{secp256r1_program_id, system_program_id, Pubkey};
use lazorkit::secp256r1::verify_secp256r1_instruction;

fn passkey() -> [u8; 33] {
    let mut k = [1u8; 33];
    k[0] = 2;
    k
}

fn record(public_key: &[u8], signature: &[u8], message: &[u8]) -> Instruction {
    let mut data = vec![1u8, 0];
    data.extend_from_slice(&49u16.to_le_bytes());
    data.extend_from_slice(&0xffffu16.to_le_bytes());
    data.extend_from_slice(&16u16.to_le_bytes());
    data.extend_from_slice(&0xffffu16.to_le_bytes());
    data.extend_from_slice(&113u16.to_le_bytes());
    data.extend_from_slice(&(message.len() as u16).to_le_bytes());
    data.extend_from_slice(&0xffffu16.to_le_bytes());
    data.extend_from_slice(public_key);
    data.extend_from_slice(signature);
    data.extend_from_slice(message);
    Instruction { program_id: secp256r1_program_id(), accounts: Vec::new(), data }
}

#[test]
fn well_formed_record_is_accepted() {
    let ix = record(&passkey(), &[7; 64], b"message");
    assert_eq!(ix.data.len(), 16 + 33 + 64 + 7);
    assert_eq!(verify_secp256r1_instruction(&ix, &passkey(), b"message", &[7; 64]), Ok(()));
}

#[test]
fn empty_message_is_accepted() {
    let ix = record(&passkey(), &[7; 64], b"");
    assert_eq!(verify_secp256r1_instruction(&ix, &passkey(), b"", &[7; 64]), Ok(()));
}

#[test]
fn padding_byte_is_not_interpreted() {
    let mut ix = record(&passkey(), &[7; 64], b"message");
    ix.data[1] = 0xaa;
    assert_eq!(verify_secp256r1_instruction(&ix, &passkey(), b"message", &[7; 64]), Ok(()));
}

#[test]
fn wrong_program_accounts_or_length_is_rejected() {
    let good = record(&passkey(), &[7; 64], b"message");
    let mut ix = good.clone();
    ix.program_id = system_program_id();
    assert_eq!(
        verify_secp256r1_instruction(&ix, &passkey(), b"message", &[7; 64]),
        Err(LazorKitError::Secp256r1InvalidLength)
    );
    let mut ix = good.clone();
    ix.accounts.push(AccountMeta { pubkey: Pubkey { bytes: [1; 32] }, is_signer: false, is_writable: false });
    assert_eq!(
        verify_secp256r1_instruction(&ix, &passkey(), b"message", &[7; 64]),
        Err(LazorKitError::Secp256r1InvalidLength)
    );
    let mut ix = good.clone();
    ix.data.push(0);
    assert_eq!(
        verify_secp256r1_instruction(&ix, &passkey(), b"message", &[7; 64]),
        Err(LazorKitError::Secp256r1InvalidLength)
    );
    let mut ix = good.clone();
    ix.data.truncate(20);
    assert_eq!(
        verify_secp256r1_instruction(&ix, &passkey(), b"message", &[7; 64]),
        Err(LazorKitError::Secp256r1InvalidLength)
    );
    assert_eq!(
        verify_secp256r1_instruction(&good, &passkey(), b"messag", &[7; 64]),
        Err(LazorKitError::Secp256r1InvalidLength)
    );
}

#[test]
fn every_header_field_is_checked() {
    let good = record(&passkey(), &[7; 64], b"message");
    for offset in [0usize, 2, 3, 4, 5, 6, 7, 8, 9, 10, 11, 12, 13, 14, 15] {
        let mut ix = good.clone();
        ix.data[offset] ^= 0x01;
        assert_eq!(
            verify_secp256r1_instruction(&ix, &passkey(), b"message", &[7; 64]),
            Err(LazorKitError::Secp256r1HeaderMismatch)
        );
    }
}

#[test]
fn key_signature_and_message_are_compared_byte_for_byte() {
    let good = record(&passkey(), &[7; 64], b"message");
    for offset in [16usize, 48, 49, 112, 113, 119] {
        let mut ix = good.clone();
        ix.data[offset] ^= 0x80;
        assert_eq!(
            verify_secp256r1_instruction(&ix, &passkey(), b"message", &[7; 64]),
            Err(LazorKitError::Secp256r1DataMismatch)
        );
    }
    let mut other = passkey();
    other[32] = 9;
    assert_eq!(
        verify_secp256r1_instruction(&good, &other, b"message", &[7; 64]),
        Err(LazorKitError::Secp256r1DataMismatch)
    );
    assert_eq!(
        verify_secp256r1_instruction(&good, &passkey(), b"massage", &[7; 64]),
        Err(LazorKitError::Secp256r1DataMismatch)
    );
    assert_eq!(
        verify_secp256r1_instruction(&good, &passkey(), b"message", &[8; 64]),
        Err(LazorKitError::Secp256r1DataMismatch)
    );
    assert_eq!(
        verify_secp256r1_instruction(&good, &passkey(), b"message", &[7; 63]),
        Err(LazorKitError::Secp256r1DataMismatch)
    );
}

#[test]
fn message_longer_than_the_header_can_say_is_rejected() {
    let message = vec![5u8; 65536 + 7];
    let ix = record(&passkey(), &[7; 64], &message);
    assert_eq!(
        verify_secp256r1_instruction(&ix, &passkey(), &message, &[7; 64]),
        Err(LazorKitError::Secp256r1HeaderMismatch)
    );
}
