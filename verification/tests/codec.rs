use anchor_lang::AnchorDeserialize;
use base64::Engine;
use lazorkit::bytes::{
    append, read_array, read_i64_le, read_u16_le, read_u64_le, slice_eq, starts_with, to_vec,
    write_i64_le, write_u64_le,
};
use lazorkit::client_data::{challenge_from_text, parse_challenge};
use lazorkit::error::LazorKitError;
use lazorkit::message::{
    check_header, ExecuteMessage, HasHeader, HeaderView, InvokePolicyMessage,
    Message, UpdatePolicyMessage, MAX_TIMESTAMP_DRIFT_SECONDS,
};

fn execute_message() -> ExecuteMessage {
    ExecuteMessage {
        nonce: 7,
        current_timestamp: -5,
        policy_data_hash: [1; 32],
        policy_accounts_hash: [2; 32],
        cpi_data_hash: [3; 32],
        cpi_accounts_hash: [4; 32],
    }
}

fn client_data_for(challenge: &[u8]) -> Vec<u8> {
    let text = base64::engine::general_purpose::URL_SAFE_NO_PAD.encode(challenge);
    format!(
        "{{\"type\":\"webauthn.get\",\"challenge\":\"{}\",\"origin\":\"https://example.com\"}}",
        text
    )
    .into_bytes()
}

#[test]
fn slice_eq_compares_content() {
    assert!(slice_eq(&[1, 2, 3], &[1, 2, 3]));
    assert!(!slice_eq(&[1, 2, 3], &[1, 2, 4]));
    assert!(!slice_eq(&[1, 2, 3], &[1, 2]));
    assert!(slice_eq(&[], &[]));
}

#[test]
fn starts_with_tests_prefixes() {
    assert!(starts_with(&[1, 2, 3], &[1, 2]));
    assert!(starts_with(&[1, 2, 3], &[]));
    assert!(!starts_with(&[1, 2], &[1, 2, 3]));
    assert!(!starts_with(&[1, 2, 3], &[2]));
}

#[test]
fn little_endian_reads() {
    let data = [0x01u8, 0x02, 0, 0, 0, 0, 0, 0, 0xff, 0xff, 0xff, 0xff, 0xff, 0xff, 0xff, 0xff];
    assert_eq!(read_u16_le(&data, 0), 0x0201);
    assert_eq!(read_u64_le(&data, 0), 0x0201);
    assert_eq!(read_u64_le(&data, 8), u64::MAX);
    assert_eq!(read_i64_le(&data, 8), -1);
    assert_eq!(read_i64_le(&data, 0), 0x0201);
    let min = i64::MIN.to_le_bytes();
    assert_eq!(read_i64_le(&min, 0), i64::MIN);
    let max = i64::MAX.to_le_bytes();
    assert_eq!(read_i64_le(&max, 0), i64::MAX);
}

#[test]
fn little_endian_writes_agree_with_std() {
    for v in [0u64, 1, 255, 256, 1_000_000, u64::MAX] {
        let mut out = vec![9u8];
        write_u64_le(&mut out, v);
        assert_eq!(out[0], 9);
        assert_eq!(out[1..], v.to_le_bytes());
    }
    for v in [0i64, 1, -1, i64::MIN, i64::MAX, -1_700_000_000] {
        let mut out = Vec::new();
        write_i64_le(&mut out, v);
        assert_eq!(out[..], v.to_le_bytes());
    }
}

#[test]
fn byte_helpers_copy() {
    let data = [1u8, 2, 3, 4, 5];
    assert_eq!(read_array::<3>(&data, 1), [2, 3, 4]);
    assert_eq!(to_vec(&data), data.to_vec());
    let mut out = vec![0u8];
    append(&mut out, &data[..2]);
    assert_eq!(out, vec![0, 1, 2]);
}

#[test]
fn execute_message_round_trip() {
    let m = execute_message();
    let bytes = m.serialize();
    assert_eq!(bytes.len(), 144);
    assert_eq!(bytes[..8], 7u64.to_le_bytes());
    assert_eq!(bytes[8..16], (-5i64).to_le_bytes());
    let d = ExecuteMessage::deserialize(&bytes).unwrap();
    assert_eq!(d.nonce, 7);
    assert_eq!(d.current_timestamp, -5);
    assert_eq!(d.policy_data_hash, [1; 32]);
    assert_eq!(d.policy_accounts_hash, [2; 32]);
    assert_eq!(d.cpi_data_hash, [3; 32]);
    assert_eq!(d.cpi_accounts_hash, [4; 32]);
}

#[test]
fn execute_message_matches_borsh() {
    let bytes = execute_message().serialize();
    type Record = (u64, i64, [u8; 32], [u8; 32], [u8; 32], [u8; 32]);
    let (nonce, ts, a, b, c, d) = <Record as AnchorDeserialize>::deserialize(&mut &bytes[..]).unwrap();
    assert_eq!((nonce, ts), (7, -5));
    assert_eq!((a, b, c, d), ([1; 32], [2; 32], [3; 32], [4; 32]));
}

#[test]
fn execute_message_ignores_trailing_bytes_and_rejects_short_input() {
    let mut bytes = execute_message().serialize();
    bytes.extend_from_slice(&[9, 9, 9]);
    assert_eq!(ExecuteMessage::deserialize(&bytes).unwrap().nonce, 7);
    assert!(ExecuteMessage::deserialize(&bytes[..143]).is_none());
    assert!(ExecuteMessage::deserialize(&[]).is_none());
}

#[test]
fn invoke_policy_message_round_trip() {
    let without = InvokePolicyMessage {
        nonce: 1,
        current_timestamp: 1_700_000_000,
        policy_data_hash: [5; 32],
        policy_accounts_hash: [6; 32],
        new_passkey: None,
    };
    let bytes = without.serialize();
    assert_eq!(bytes.len(), 81);
    assert_eq!(bytes[80], 0);
    let d = InvokePolicyMessage::deserialize(&bytes).unwrap();
    assert_eq!(d.new_passkey, None);
    assert_eq!(d.current_timestamp, 1_700_000_000);

    let mut key = [1u8; 33];
    key[0] = 3;
    let with = InvokePolicyMessage { new_passkey: Some(key), ..without };
    let bytes = with.serialize();
    assert_eq!(bytes.len(), 114);
    assert_eq!(bytes[80], 1);
    let d = InvokePolicyMessage::deserialize(&bytes).unwrap();
    assert_eq!(d.new_passkey, Some(key));
    type Record = (u64, i64, [u8; 32], [u8; 32], Option<[u8; 33]>);
    let r = <Record as AnchorDeserialize>::deserialize(&mut &bytes[..]).unwrap();
    assert_eq!(r.4, Some(key));
}

#[test]
fn invoke_policy_message_rejects_bad_option() {
    let m = InvokePolicyMessage {
        nonce: 1,
        current_timestamp: 2,
        policy_data_hash: [5; 32],
        policy_accounts_hash: [6; 32],
        new_passkey: Some([2; 33]),
    };
    let mut bytes = m.serialize();
    bytes[80] = 2;
    assert!(InvokePolicyMessage::deserialize(&bytes).is_none());
    bytes[80] = 1;
    assert!(InvokePolicyMessage::deserialize(&bytes[..113]).is_none());
    assert!(InvokePolicyMessage::deserialize(&bytes[..80]).is_none());
    bytes[80] = 0;
    assert!(InvokePolicyMessage::deserialize(&bytes[..81]).unwrap().new_passkey.is_none());
}

#[test]
fn update_policy_message_round_trip() {
    let m = UpdatePolicyMessage {
        nonce: u64::MAX,
        current_timestamp: i64::MIN,
        old_policy_data_hash: [1; 32],
        old_policy_accounts_hash: [2; 32],
        new_policy_data_hash: [3; 32],
        new_policy_accounts_hash: [4; 32],
    };
    let bytes = m.serialize();
    assert_eq!(bytes.len(), 144);
    let d = UpdatePolicyMessage::deserialize(&bytes).unwrap();
    assert_eq!(d.nonce, u64::MAX);
    assert_eq!(d.current_timestamp, i64::MIN);
    assert_eq!(d.new_policy_accounts_hash, [4; 32]);
    assert_eq!(d.header(), HeaderView { nonce: u64::MAX, current_timestamp: i64::MIN });
    assert!(UpdatePolicyMessage::deserialize(&bytes[..100]).is_none());
}

#[test]
fn header_window_is_thirty_seconds() {
    assert_eq!(MAX_TIMESTAMP_DRIFT_SECONDS, 30);
    let h = |ts: i64| HeaderView { nonce: 4, current_timestamp: ts };
    assert_eq!(check_header(h(1000), 4, 1000), Ok(()));
    assert_eq!(check_header(h(970), 4, 1000), Ok(()));
    assert_eq!(check_header(h(1030), 4, 1000), Ok(()));
    assert_eq!(check_header(h(969), 4, 1000), Err(LazorKitError::TimestampTooOld));
    assert_eq!(check_header(h(1031), 4, 1000), Err(LazorKitError::TimestampTooNew));
    assert_eq!(check_header(h(1000), 5, 1000), Err(LazorKitError::NonceMismatch));
    assert_eq!(check_header(h(969), 5, 1000), Err(LazorKitError::TimestampTooOld));
}

#[test]
fn header_window_at_the_ends_of_the_clock() {
    let h = |ts: i64| HeaderView { nonce: 0, current_timestamp: ts };
    assert_eq!(check_header(h(i64::MIN), 0, i64::MIN + 30), Ok(()));
    assert_eq!(check_header(h(i64::MIN), 0, i64::MIN + 31), Err(LazorKitError::TimestampTooOld));
    assert_eq!(check_header(h(i64::MAX), 0, i64::MAX), Ok(()));
    assert_eq!(check_header(h(i64::MAX), 0, i64::MAX - 31), Err(LazorKitError::TimestampTooNew));
    assert_eq!(check_header(h(i64::MIN), 0, i64::MAX), Err(LazorKitError::TimestampTooOld));
}

#[test]
fn verify_checks_decoding_then_header() {
    let bytes = execute_message().serialize();
    assert_eq!(ExecuteMessage::verify(&bytes, 7, 0), Ok(()));
    assert_eq!(ExecuteMessage::verify(&bytes, 8, 0), Err(LazorKitError::NonceMismatch));
    assert_eq!(ExecuteMessage::verify(&bytes, 7, 100), Err(LazorKitError::TimestampTooOld));
    assert_eq!(
        ExecuteMessage::verify(&bytes[..10], 7, 0),
        Err(LazorKitError::ChallengeDeserializationError)
    );
    assert_eq!(UpdatePolicyMessage::verify(&bytes, 7, 0), Ok(()));
    assert_eq!(
        InvokePolicyMessage::verify(&bytes[..80], 7, 0),
        Err(LazorKitError::ChallengeDeserializationError)
    );
    assert_eq!(
        InvokePolicyMessage::verify(&bytes, 7, -40),
        Err(LazorKitError::ChallengeDeserializationError)
    );
    let invoke = InvokePolicyMessage {
        nonce: 7,
        current_timestamp: -5,
        policy_data_hash: [1; 32],
        policy_accounts_hash: [2; 32],
        new_passkey: None,
    }
    .serialize();
    assert_eq!(InvokePolicyMessage::verify(&invoke, 7, -40), Err(LazorKitError::TimestampTooNew));
    assert_eq!(UpdatePolicyMessage::verify(&bytes, 0, 0), Err(LazorKitError::NonceMismatch));
}

#[test]
fn challenge_is_extracted_from_client_data() {
    let challenge = execute_message().serialize();
    let json = client_data_for(&challenge);
    assert_eq!(parse_challenge(&json), Ok(challenge));
}

#[test]
fn challenge_text_is_decoded_as_it_stands() {
    assert_eq!(challenge_from_text(b"aGVsbG8"), Ok(b"hello".to_vec()));
    assert_eq!(challenge_from_text(b""), Ok(Vec::new()));
    assert_eq!(challenge_from_text(b" aGVsbG8"), Err(LazorKitError::ChallengeBase64DecodeError));
    assert_eq!(challenge_from_text(b"aGVsbG8 "), Err(LazorKitError::ChallengeBase64DecodeError));
    assert_eq!(challenge_from_text(b"/aGVsbG8/"), Err(LazorKitError::ChallengeBase64DecodeError));
    assert_eq!(challenge_from_text(b"\"aGVsbG8\""), Err(LazorKitError::ChallengeBase64DecodeError));
    assert_eq!(parse_challenge(b"{\"challenge\":\"aGVsbG8\"}"), Ok(b"hello".to_vec()));
    assert_eq!(
        parse_challenge(b"{\"challenge\":\" aGVsbG8\"}"),
        Err(LazorKitError::ChallengeBase64DecodeError)
    );
}

#[test]
fn challenge_uses_the_url_safe_alphabet_without_padding() {
    assert_eq!(challenge_from_text(b"-_8"), Ok(vec![0xfb, 0xff]));
    assert_eq!(challenge_from_text(b"+/8"), Err(LazorKitError::ChallengeBase64DecodeError));
    assert_eq!(challenge_from_text(b"aGVsbG8="), Err(LazorKitError::ChallengeBase64DecodeError));
    assert_eq!(challenge_from_text(b"a"), Err(LazorKitError::ChallengeBase64DecodeError));
}

#[test]
fn client_data_errors() {
    assert_eq!(parse_challenge(&[0xff, 0xfe]), Err(LazorKitError::ClientDataInvalidUtf8));
    assert_eq!(parse_challenge(b"{not json"), Err(LazorKitError::ClientDataJsonParseError));
    assert_eq!(parse_challenge(b""), Err(LazorKitError::ClientDataJsonParseError));
    assert_eq!(parse_challenge(b"{\"type\":\"x\"}"), Err(LazorKitError::ChallengeMissing));
    assert_eq!(parse_challenge(b"{\"challenge\":5}"), Err(LazorKitError::ChallengeMissing));
    assert_eq!(parse_challenge(b"[1,2]"), Err(LazorKitError::ChallengeMissing));
    assert_eq!(
        parse_challenge(b"{\"challenge\":\"***\"}"),
        Err(LazorKitError::ChallengeBase64DecodeError)
    );
}
