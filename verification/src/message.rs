//! The challenge messages a passkey signs, and their byte format.
//!
//! Every message is a fixed little-endian record: a header of the nonce
//! (`u64`) and the client's timestamp (`i64`), then the commitments of
//! the action. Bytes after the record are ignored by the decoder.

use vstd::prelude::*;
use crate::bytes::{
    append, array_of, lemma_array_of, as_signed_64, as_unsigned_64, le_bytes, le_value,
    lemma_le_round_trip, lemma_le_value_bound, lemma_pow256_values, read_array, read_i64_le,
    read_u64_le, write_i64_le, write_u64_le,
};
use crate::error::LazorKitError;

verus! {

/// Largest accepted distance, in seconds, between the timestamp a
/// challenge carries and the clock of the runtime.
pub const MAX_TIMESTAMP_DRIFT_SECONDS: i64 = 30;

/// The header every challenge starts with.
#[derive(Clone, Copy, Debug, PartialEq, Eq, Structural)]
pub struct HeaderView {
    pub nonce: u64,
    pub current_timestamp: i64,
}

/// Types that carry a challenge header.
pub trait HasHeader {
    spec fn spec_header(&self) -> HeaderView;

    fn header(&self) -> (h: HeaderView)
        ensures
            h == self.spec_header(),
    ;
}

/// Challenge authorising a transaction, immediate or committed.
#[derive(Clone, Copy, Debug)]
pub struct ExecuteMessage {
    pub nonce: u64,
    pub current_timestamp: i64,
    pub policy_data_hash: [u8; 32],
    pub policy_accounts_hash: [u8; 32],
    pub cpi_data_hash: [u8; 32],
    pub cpi_accounts_hash: [u8; 32],
}

/// Challenge authorising a call into the wallet's policy program.
#[derive(Clone, Copy, Debug)]
pub struct InvokePolicyMessage {
    pub nonce: u64,
    pub current_timestamp: i64,
    pub policy_data_hash: [u8; 32],
    pub policy_accounts_hash: [u8; 32],
    pub new_passkey: Option<[u8; 33]>,
}

/// Challenge authorising a change of the wallet's policy program.
#[derive(Clone, Copy, Debug)]
pub struct UpdatePolicyMessage {
    pub nonce: u64,
    pub current_timestamp: i64,
    pub old_policy_data_hash: [u8; 32],
    pub old_policy_accounts_hash: [u8; 32],
    pub new_policy_data_hash: [u8; 32],
    pub new_policy_accounts_hash: [u8; 32],
}

/// Length of the header and of the encoded fixed-size messages.
pub const HEADER_LEN: usize = 16;

pub const EXECUTE_MESSAGE_LEN: usize = 144;

pub const UPDATE_POLICY_MESSAGE_LEN: usize = 144;

/// Length of an [`InvokePolicyMessage`] up to and including the tag of
/// its optional passkey.
pub const INVOKE_POLICY_PREFIX_LEN: usize = 81;

/// The header encoded at the start of `bytes`.
pub open spec fn decode_header(bytes: Seq<u8>) -> HeaderView
    recommends
        bytes.len() >= 16,
{
    HeaderView {
        nonce: le_value(bytes.subrange(0, 8)) as u64,
        current_timestamp: as_signed_64(le_value(bytes.subrange(8, 16))) as i64,
    }
}

/// The sixteen bytes of a header.
pub open spec fn encode_header(h: HeaderView) -> Seq<u8> {
    le_bytes(h.nonce as nat, 8) + le_bytes(as_unsigned_64(h.current_timestamp as int), 8)
}

/// Decoding a header undoes encoding it, whatever follows.
pub proof fn lemma_header_round_trip(h: HeaderView, rest: Seq<u8>)
    ensures
        encode_header(h).len() == 16,
        decode_header(encode_header(h) + rest) == h,
{
    lemma_pow256_values();
    let n = le_bytes(h.nonce as nat, 8);
    let t = le_bytes(as_unsigned_64(h.current_timestamp as int), 8);
    lemma_le_round_trip(h.nonce as nat, 8);
    lemma_le_round_trip(as_unsigned_64(h.current_timestamp as int), 8);
    let all = encode_header(h) + rest;
    assert(all.subrange(0, 8) =~= n);
    assert(all.subrange(8, 16) =~= t);
}

/// A challenge message with its byte format.
pub trait Message: Sized + HasHeader {
    /// The message encoded at the start of `bytes`, if there is one.
    spec fn decode(bytes: Seq<u8>) -> Option<Self>;

    /// The bytes that encode the message.
    spec fn encode(&self) -> Seq<u8>;

    /// Decodes the message at the start of `bytes`.
    fn deserialize(bytes: &[u8]) -> (r: Option<Self>)
        ensures
            r == Self::decode(bytes@),
    ;

    /// Encodes the message.
    fn serialize(&self) -> (out: Vec<u8>)
        ensures
            out@ == self.encode(),
    ;

    /// A decoded message carries the header its bytes start with, and
    /// decoding undoes encoding.
    proof fn lemma_codec(m: Self, bytes: Seq<u8>)
        ensures
            Self::decode(m.encode()) == Some(m),
            Self::decode(bytes) matches Some(d) ==> bytes.len() >= 16 && d.spec_header()
                == decode_header(bytes),
    ;

    /// Checks the header of the challenge in `challenge_bytes` against
    /// the wallet's nonce and the runtime clock `now`.
    fn verify(challenge_bytes: &[u8], last_nonce: u64, now: i64) -> (r: Result<(), LazorKitError>)
        ensures
            r == (match Self::decode(challenge_bytes@) {
                None => Err(LazorKitError::ChallengeDeserializationError),
                Some(m) => check_header_spec(m.spec_header(), last_nonce, now),
            }),
    ;
}

/// Verdict on a header: the timestamp must lie within the drift window
/// around `now`, and the nonce must be the wallet's current one.
pub open spec fn check_header_spec(h: HeaderView, last_nonce: u64, now: i64) -> Result<
    (),
    LazorKitError,
> {
    if h.current_timestamp < now - MAX_TIMESTAMP_DRIFT_SECONDS {
        Err(LazorKitError::TimestampTooOld)
    } else if h.current_timestamp > now + MAX_TIMESTAMP_DRIFT_SECONDS {
        Err(LazorKitError::TimestampTooNew)
    } else if h.nonce != last_nonce {
        Err(LazorKitError::NonceMismatch)
    } else {
        Ok(())
    }
}

/// Checks a header against the wallet's nonce and the runtime clock.
pub fn check_header(h: HeaderView, last_nonce: u64, now: i64) -> (r: Result<(), LazorKitError>)
    ensures
        r == check_header_spec(h, last_nonce, now),
{
    let ts: i128 = h.current_timestamp as i128;
    let clock: i128 = now as i128;
    let drift: i128 = MAX_TIMESTAMP_DRIFT_SECONDS as i128;
    if ts < clock - drift {
        return Err(LazorKitError::TimestampTooOld);
    }
    if ts > clock + drift {
        return Err(LazorKitError::TimestampTooNew);
    }
    if h.nonce != last_nonce {
        return Err(LazorKitError::NonceMismatch);
    }
    Ok(())
}

/// An accepted header is fresh and carries the wallet's nonce.
pub proof fn lemma_accepted_header_is_fresh(h: HeaderView, last_nonce: u64, now: i64)
    requires
        check_header_spec(h, last_nonce, now) is Ok,
    ensures
        h.nonce == last_nonce,
        -30 <= h.current_timestamp - now <= 30,
{
}

impl HasHeader for ExecuteMessage {
    open spec fn spec_header(&self) -> HeaderView {
        HeaderView { nonce: self.nonce, current_timestamp: self.current_timestamp }
    }

    fn header(&self) -> (h: HeaderView) {
        HeaderView { nonce: self.nonce, current_timestamp: self.current_timestamp }
    }
}

impl HasHeader for InvokePolicyMessage {
    open spec fn spec_header(&self) -> HeaderView {
        HeaderView { nonce: self.nonce, current_timestamp: self.current_timestamp }
    }

    fn header(&self) -> (h: HeaderView) {
        HeaderView { nonce: self.nonce, current_timestamp: self.current_timestamp }
    }
}

impl HasHeader for UpdatePolicyMessage {
    open spec fn spec_header(&self) -> HeaderView {
        HeaderView { nonce: self.nonce, current_timestamp: self.current_timestamp }
    }

    fn header(&self) -> (h: HeaderView) {
        HeaderView { nonce: self.nonce, current_timestamp: self.current_timestamp }
    }
}

impl Message for ExecuteMessage {
    open spec fn decode(bytes: Seq<u8>) -> Option<Self> {
        if bytes.len() < 144 {
            None
        } else {
            Some(
                ExecuteMessage {
                    nonce: decode_header(bytes).nonce,
                    current_timestamp: decode_header(bytes).current_timestamp,
                    policy_data_hash: array_of(bytes.subrange(16, 48)),
                    policy_accounts_hash: array_of(bytes.subrange(48, 80)),
                    cpi_data_hash: array_of(bytes.subrange(80, 112)),
                    cpi_accounts_hash: array_of(bytes.subrange(112, 144)),
                },
            )
        }
    }

    open spec fn encode(&self) -> Seq<u8> {
        encode_header(self.spec_header()) + self.policy_data_hash@ + self.policy_accounts_hash@
            + self.cpi_data_hash@ + self.cpi_accounts_hash@
    }

    fn deserialize(bytes: &[u8]) -> (r: Option<Self>) {
        if bytes.len() < EXECUTE_MESSAGE_LEN {
            return None;
        }
        proof {
            lemma_pow256_values();
            lemma_le_value_bound(bytes@.subrange(0, 8));
            lemma_le_value_bound(bytes@.subrange(8, 16));
        }
        Some(
            ExecuteMessage {
                nonce: read_u64_le(bytes, 0),
                current_timestamp: read_i64_le(bytes, 8),
                policy_data_hash: read_array::<32>(bytes, 16),
                policy_accounts_hash: read_array::<32>(bytes, 48),
                cpi_data_hash: read_array::<32>(bytes, 80),
                cpi_accounts_hash: read_array::<32>(bytes, 112),
            },
        )
    }

    fn serialize(&self) -> (out: Vec<u8>) {
        let mut out: Vec<u8> = Vec::new();
        write_u64_le(&mut out, self.nonce);
        write_i64_le(&mut out, self.current_timestamp);
        append(&mut out, self.policy_data_hash.as_slice());
        append(&mut out, self.policy_accounts_hash.as_slice());
        append(&mut out, self.cpi_data_hash.as_slice());
        append(&mut out, self.cpi_accounts_hash.as_slice());
        assert(out@ =~= self.encode());
        out
    }

    proof fn lemma_codec(m: Self, bytes: Seq<u8>) {
        let e = m.encode();
        let tail = m.policy_data_hash@ + m.policy_accounts_hash@ + m.cpi_data_hash@
            + m.cpi_accounts_hash@;
        lemma_header_round_trip(m.spec_header(), tail);
        assert(e =~= encode_header(m.spec_header()) + tail);
        assert(e.subrange(16, 48) =~= m.policy_data_hash@);
        assert(e.subrange(48, 80) =~= m.policy_accounts_hash@);
        assert(e.subrange(80, 112) =~= m.cpi_data_hash@);
        assert(e.subrange(112, 144) =~= m.cpi_accounts_hash@);
        lemma_array_of::<32>(m.policy_data_hash@);
        lemma_array_of::<32>(m.policy_accounts_hash@);
        lemma_array_of::<32>(m.cpi_data_hash@);
        lemma_array_of::<32>(m.cpi_accounts_hash@);
    }

    fn verify(challenge_bytes: &[u8], last_nonce: u64, now: i64) -> (r: Result<(), LazorKitError>) {
        match ExecuteMessage::deserialize(challenge_bytes) {
            None => Err(LazorKitError::ChallengeDeserializationError),
            Some(m) => check_header(m.header(), last_nonce, now),
        }
    }
}

/// The optional passkey encoded from offset 80: a tag byte, `0` for
/// none or `1` followed by the 33 bytes of the passkey.
pub open spec fn decode_optional_passkey(bytes: Seq<u8>) -> Option<Option<[u8; 33]>>
    recommends
        bytes.len() >= 81,
{
    if bytes[80] == 0 {
        Some(None)
    } else if bytes[80] == 1 && bytes.len() >= 114 {
        Some(Some(array_of(bytes.subrange(81, 114))))
    } else {
        None
    }
}

/// The bytes an optional passkey is encoded as.
pub open spec fn encode_optional_passkey(key: Option<[u8; 33]>) -> Seq<u8> {
    match key {
        None => seq![0u8],
        Some(k) => seq![1u8] + k@,
    }
}

impl Message for InvokePolicyMessage {
    open spec fn decode(bytes: Seq<u8>) -> Option<Self> {
        if bytes.len() < 81 {
            None
        } else {
            match decode_optional_passkey(bytes) {
                None => None,
                Some(new_passkey) => Some(
                    InvokePolicyMessage {
                        nonce: decode_header(bytes).nonce,
                        current_timestamp: decode_header(bytes).current_timestamp,
                        policy_data_hash: array_of(bytes.subrange(16, 48)),
                        policy_accounts_hash: array_of(bytes.subrange(48, 80)),
                        new_passkey,
                    },
                ),
            }
        }
    }

    open spec fn encode(&self) -> Seq<u8> {
        encode_header(self.spec_header()) + self.policy_data_hash@ + self.policy_accounts_hash@
            + encode_optional_passkey(self.new_passkey)
    }

    fn deserialize(bytes: &[u8]) -> (r: Option<Self>) {
        if bytes.len() < INVOKE_POLICY_PREFIX_LEN {
            return None;
        }
        proof {
            lemma_pow256_values();
            lemma_le_value_bound(bytes@.subrange(0, 8));
            lemma_le_value_bound(bytes@.subrange(8, 16));
        }
        let tag: u8 = bytes[80];
        let new_passkey: Option<[u8; 33]> = if tag == 0 {
            None
        } else if tag == 1 && bytes.len() >= 114 {
            Some(read_array::<33>(bytes, 81))
        } else {
            return None;
        };
        Some(
            InvokePolicyMessage {
                nonce: read_u64_le(bytes, 0),
                current_timestamp: read_i64_le(bytes, 8),
                policy_data_hash: read_array::<32>(bytes, 16),
                policy_accounts_hash: read_array::<32>(bytes, 48),
                new_passkey,
            },
        )
    }

    fn serialize(&self) -> (out: Vec<u8>) {
        let mut out: Vec<u8> = Vec::new();
        write_u64_le(&mut out, self.nonce);
        write_i64_le(&mut out, self.current_timestamp);
        append(&mut out, self.policy_data_hash.as_slice());
        append(&mut out, self.policy_accounts_hash.as_slice());
        match &self.new_passkey {
            None => {
                out.push(0u8);
            },
            Some(k) => {
                out.push(1u8);
                append(&mut out, k.as_slice());
            },
        }
        assert(out@ =~= self.encode());
        out
    }

    proof fn lemma_codec(m: Self, bytes: Seq<u8>) {
        let e = m.encode();
        let tail = m.policy_data_hash@ + m.policy_accounts_hash@ + encode_optional_passkey(
            m.new_passkey,
        );
        lemma_header_round_trip(m.spec_header(), tail);
        assert(e =~= encode_header(m.spec_header()) + tail);
        assert(e.subrange(16, 48) =~= m.policy_data_hash@);
        assert(e.subrange(48, 80) =~= m.policy_accounts_hash@);
        lemma_array_of::<32>(m.policy_data_hash@);
        lemma_array_of::<32>(m.policy_accounts_hash@);
        match m.new_passkey {
            None => {
                assert(e[80] == 0);
            },
            Some(k) => {
                assert(e[80] == 1);
                assert(e.subrange(81, 114) =~= k@);
                lemma_array_of::<33>(k@);
            },
        }
    }

    fn verify(challenge_bytes: &[u8], last_nonce: u64, now: i64) -> (r: Result<(), LazorKitError>) {
        match InvokePolicyMessage::deserialize(challenge_bytes) {
            None => Err(LazorKitError::ChallengeDeserializationError),
            Some(m) => check_header(m.header(), last_nonce, now),
        }
    }
}

impl Message for UpdatePolicyMessage {
    open spec fn decode(bytes: Seq<u8>) -> Option<Self> {
        if bytes.len() < 144 {
            None
        } else {
            Some(
                UpdatePolicyMessage {
                    nonce: decode_header(bytes).nonce,
                    current_timestamp: decode_header(bytes).current_timestamp,
                    old_policy_data_hash: array_of(bytes.subrange(16, 48)),
                    old_policy_accounts_hash: array_of(bytes.subrange(48, 80)),
                    new_policy_data_hash: array_of(bytes.subrange(80, 112)),
                    new_policy_accounts_hash: array_of(bytes.subrange(112, 144)),
                },
            )
        }
    }

    open spec fn encode(&self) -> Seq<u8> {
        encode_header(self.spec_header()) + self.old_policy_data_hash@
            + self.old_policy_accounts_hash@ + self.new_policy_data_hash@
            + self.new_policy_accounts_hash@
    }

    fn deserialize(bytes: &[u8]) -> (r: Option<Self>) {
        if bytes.len() < UPDATE_POLICY_MESSAGE_LEN {
            return None;
        }
        proof {
            lemma_pow256_values();
            lemma_le_value_bound(bytes@.subrange(0, 8));
            lemma_le_value_bound(bytes@.subrange(8, 16));
        }
        Some(
            UpdatePolicyMessage {
                nonce: read_u64_le(bytes, 0),
                current_timestamp: read_i64_le(bytes, 8),
                old_policy_data_hash: read_array::<32>(bytes, 16),
                old_policy_accounts_hash: read_array::<32>(bytes, 48),
                new_policy_data_hash: read_array::<32>(bytes, 80),
                new_policy_accounts_hash: read_array::<32>(bytes, 112),
            },
        )
    }

    fn serialize(&self) -> (out: Vec<u8>) {
        let mut out: Vec<u8> = Vec::new();
        write_u64_le(&mut out, self.nonce);
        write_i64_le(&mut out, self.current_timestamp);
        append(&mut out, self.old_policy_data_hash.as_slice());
        append(&mut out, self.old_policy_accounts_hash.as_slice());
        append(&mut out, self.new_policy_data_hash.as_slice());
        append(&mut out, self.new_policy_accounts_hash.as_slice());
        assert(out@ =~= self.encode());
        out
    }

    proof fn lemma_codec(m: Self, bytes: Seq<u8>) {
        let e = m.encode();
        let tail = m.old_policy_data_hash@ + m.old_policy_accounts_hash@ + m.new_policy_data_hash@
            + m.new_policy_accounts_hash@;
        lemma_header_round_trip(m.spec_header(), tail);
        assert(e =~= encode_header(m.spec_header()) + tail);
        assert(e.subrange(16, 48) =~= m.old_policy_data_hash@);
        assert(e.subrange(48, 80) =~= m.old_policy_accounts_hash@);
        assert(e.subrange(80, 112) =~= m.new_policy_data_hash@);
        assert(e.subrange(112, 144) =~= m.new_policy_accounts_hash@);
        lemma_array_of::<32>(m.old_policy_data_hash@);
        lemma_array_of::<32>(m.old_policy_accounts_hash@);
        lemma_array_of::<32>(m.new_policy_data_hash@);
        lemma_array_of::<32>(m.new_policy_accounts_hash@);
    }

    fn verify(challenge_bytes: &[u8], last_nonce: u64, now: i64) -> (r: Result<(), LazorKitError>) {
        match UpdatePolicyMessage::deserialize(challenge_bytes) {
            None => Err(LazorKitError::ChallengeDeserializationError),
            Some(m) => check_header(m.header(), last_nonce, now),
        }
    }
}

} // verus!
