//! Status codes: a 32-bit value whose high half names the outcome and whose
//! low half carries information bits.

use crate::encoding::{BinaryEncoder, DecodingLimits, EncodingError, Parsed, Reader};
use vstd::prelude::*;

verus! {

/// `Good`.
pub const GOOD: u32 = 0;

/// `BadUnexpectedError`.
pub const BAD_UNEXPECTED_ERROR: u32 = 0x8001_0000;

/// `BadInternalError`.
pub const BAD_INTERNAL_ERROR: u32 = 0x8002_0000;

/// `BadResourceUnavailable`.
pub const BAD_RESOURCE_UNAVAILABLE: u32 = 0x8004_0000;

/// `BadCommunicationError`.
pub const BAD_COMMUNICATION_ERROR: u32 = 0x8005_0000;

/// `BadEncodingError`.
pub const BAD_ENCODING_ERROR: u32 = 0x8006_0000;

/// `BadDecodingError`.
pub const BAD_DECODING_ERROR: u32 = 0x8007_0000;

/// `BadTimeout`.
pub const BAD_TIMEOUT: u32 = 0x800A_0000;

/// `BadServiceUnsupported`.
pub const BAD_SERVICE_UNSUPPORTED: u32 = 0x800B_0000;

/// `BadNothingToDo`.
pub const BAD_NOTHING_TO_DO: u32 = 0x800F_0000;

/// `BadCertificateInvalid`.
pub const BAD_CERTIFICATE_INVALID: u32 = 0x8012_0000;

/// `BadIdentityTokenInvalid`.
pub const BAD_IDENTITY_TOKEN_INVALID: u32 = 0x8020_0000;

/// `BadIdentityTokenRejected`.
pub const BAD_IDENTITY_TOKEN_REJECTED: u32 = 0x8021_0000;

/// `BadSecureChannelIdInvalid`.
pub const BAD_SECURE_CHANNEL_ID_INVALID: u32 = 0x8022_0000;

/// `BadNonceInvalid`.
pub const BAD_NONCE_INVALID: u32 = 0x8024_0000;

/// `BadSessionIdInvalid`.
pub const BAD_SESSION_ID_INVALID: u32 = 0x8025_0000;

/// `BadSessionClosed`.
pub const BAD_SESSION_CLOSED: u32 = 0x8026_0000;

/// `BadSessionNotActivated`.
pub const BAD_SESSION_NOT_ACTIVATED: u32 = 0x8027_0000;

/// `BadSubscriptionIdInvalid`.
pub const BAD_SUBSCRIPTION_ID_INVALID: u32 = 0x8028_0000;

/// `BadNodeIdInvalid`.
pub const BAD_NODE_ID_INVALID: u32 = 0x8033_0000;

/// `BadNodeIdUnknown`.
pub const BAD_NODE_ID_UNKNOWN: u32 = 0x8034_0000;

/// `BadAttributeIdInvalid`.
pub const BAD_ATTRIBUTE_ID_INVALID: u32 = 0x8035_0000;

/// `BadFilterNotAllowed`.
pub const BAD_FILTER_NOT_ALLOWED: u32 = 0x8045_0000;

/// `BadContinuationPointInvalid`.
pub const BAD_CONTINUATION_POINT_INVALID: u32 = 0x804A_0000;

/// `BadNodeIdExists`.
pub const BAD_NODE_ID_EXISTS: u32 = 0x805E_0000;

/// `BadNodeClassInvalid`.
pub const BAD_NODE_CLASS_INVALID: u32 = 0x805F_0000;

/// `BadSecurityModeRejected`.
pub const BAD_SECURITY_MODE_REJECTED: u32 = 0x8054_0000;

/// `BadTooManySessions`.
pub const BAD_TOO_MANY_SESSIONS: u32 = 0x8056_0000;

/// `BadViewIdUnknown`.
pub const BAD_VIEW_ID_UNKNOWN: u32 = 0x806B_0000;

/// `BadNoMatch`.
pub const BAD_NO_MATCH: u32 = 0x806F_0000;

/// `BadSequenceNumberUnknown`.
pub const BAD_SEQUENCE_NUMBER_UNKNOWN: u32 = 0x807A_0000;

/// `BadMessageNotAvailable`.
pub const BAD_MESSAGE_NOT_AVAILABLE: u32 = 0x807B_0000;

/// `BadTcpMessageTypeInvalid`.
pub const BAD_TCP_MESSAGE_TYPE_INVALID: u32 = 0x807E_0000;

/// `BadTcpMessageTooLarge`.
pub const BAD_TCP_MESSAGE_TOO_LARGE: u32 = 0x8080_0000;

/// `BadSecureChannelClosed`.
pub const BAD_SECURE_CHANNEL_CLOSED: u32 = 0x8086_0000;

/// `BadConnectionClosed`.
pub const BAD_CONNECTION_CLOSED: u32 = 0x80AE_0000;

/// `BadProtocolVersionUnsupported`.
pub const BAD_PROTOCOL_VERSION_UNSUPPORTED: u32 = 0x80BE_0000;

/// The information bits that mark a data value as having overflowed a queue.
pub const INFO_OVERFLOW: u32 = 0x0000_0480;

/// The outcome of an operation, in its raw 32-bit form.
#[derive(Clone, Copy, Debug, PartialEq, Eq, Hash, Structural)]
pub struct StatusCode(pub u32);

impl DeepView for StatusCode {
    type V = StatusCode;

    open spec fn deep_view(&self) -> StatusCode {
        *self
    }
}

impl StatusCode {
    /// The raw 32-bit value.
    pub fn bits(&self) -> (r: u32)
        ensures
            r == self.0,
    {
        self.0
    }

    /// The outcome without its information bits.
    pub open spec fn spec_status(&self) -> u32 {
        self.0 & 0xFFFF_0000
    }

    /// The outcome without its information bits.
    #[verifier::when_used_as_spec(spec_status)]
    pub fn status(&self) -> (r: u32)
        ensures
            r == self.spec_status(),
    {
        self.0 & 0xFFFF_0000
    }

    /// The information bits alone.
    pub fn info_bits(&self) -> (r: u32)
        ensures
            r == self.0 & 0x0000_FFFF,
    {
        self.0 & 0x0000_FFFF
    }

    /// Whether the severity is good: the two highest bits are clear.
    pub open spec fn spec_is_good(&self) -> bool {
        self.0 & 0xC000_0000 == 0
    }

    /// Whether the severity is good.
    #[verifier::when_used_as_spec(spec_is_good)]
    pub fn is_good(&self) -> (r: bool)
        ensures
            r == self.spec_is_good(),
    {
        self.0 & 0xC000_0000 == 0
    }

    /// Whether the severity is bad: the highest bit is set.
    pub open spec fn spec_is_bad(&self) -> bool {
        self.0 & 0x8000_0000 != 0
    }

    /// Whether the severity is bad.
    #[verifier::when_used_as_spec(spec_is_bad)]
    pub fn is_bad(&self) -> (r: bool)
        ensures
            r == self.spec_is_bad(),
    {
        self.0 & 0x8000_0000 != 0
    }

    /// The same outcome with the overflow information bits set.
    pub fn with_overflow(&self) -> (r: StatusCode)
        ensures
            r.0 == self.0 | INFO_OVERFLOW,
    {
        StatusCode(self.0 | INFO_OVERFLOW)
    }
}

/// A status code is its raw value as a 32-bit unsigned integer.
impl BinaryEncoder for StatusCode {
    open spec fn wire(v: StatusCode) -> Seq<u8> {
        u32::wire(v.0)
    }

    open spec fn parse(bytes: Seq<u8>, limits: DecodingLimits) -> Parsed<StatusCode> {
        match u32::parse(bytes, limits) {
            Err(e) => Err(e),
            Ok((bits, n)) => Ok((StatusCode(bits), n)),
        }
    }

    open spec fn encodable(v: StatusCode) -> bool {
        true
    }

    open spec fn within(v: StatusCode, limits: DecodingLimits) -> bool {
        true
    }

    proof fn lemma_parse_wire(v: StatusCode, rest: Seq<u8>, limits: DecodingLimits) {
        u32::lemma_parse_wire(v.0, rest, limits);
    }

    proof fn lemma_parse_truncated(v: StatusCode, k: int, limits: DecodingLimits) {
        u32::lemma_parse_truncated(v.0, k, limits);
    }

    proof fn lemma_parse_bound(bytes: Seq<u8>, limits: DecodingLimits) {
    }

    fn byte_len(&self) -> (n: usize) {
        self.0.byte_len()
    }

    fn encode(&self, stream: &mut Vec<u8>) -> (r: Result<usize, EncodingError>) {
        self.0.encode(stream)
    }

    fn decode(stream: &mut Reader, limits: &DecodingLimits) -> (r: Result<Self, EncodingError>) {
        let bits = u32::decode(stream, limits)?;
        Ok(StatusCode(bits))
    }
}

} // verus!
