//! Byte strings: opaque bytes, or null.

use crate::encoding::{
    byte_len_prefixed, lemma_oversize_prefixed, lemma_parse_truncated_prefixed,
    lemma_parse_wire_prefixed, parse_prefixed,
    read_prefixed, wire_prefixed, write_prefixed, BinaryEncoder, DecodingLimits, EncodingError,
    Parsed, Reader,
};
use vstd::prelude::*;
use vstd::std_specs::cmp::PartialEqSpecImpl;

verus! {

/// The bytes that a text stands for in standard padded base64, or `None`
/// where the text is not such an encoding.
pub uninterp spec fn base64_bytes(text: Seq<char>) -> Option<Seq<u8>>;

/// The standard padded base64 text of some bytes.
pub uninterp spec fn base64_text(bytes: Seq<u8>) -> Seq<char>;

/// `base64::Engine::decode` on the standard engine: the decoded bytes, or
/// `None` where the crate reports a decode error. The standard engine takes
/// canonical padded text only, so a text that it decodes is the text that
/// `base64::Engine::encode` gives for the decoded bytes.
#[verifier::external_body]
fn base64_decode(text: &str) -> (r: Option<Vec<u8>>)
    ensures
        r.deep_view() == base64_bytes(text@),
        r matches Some(bytes) ==> base64_text(bytes@) == text@,
{
    match base64::Engine::decode(&base64::engine::general_purpose::STANDARD, text) {
        Ok(bytes) => Some(bytes),
        Err(_) => None,
    }
}

/// `base64::Engine::encode` on the standard engine: the text, which
/// `base64::Engine::decode` reads back as the same bytes. The crate panics
/// where the length of the text would not fit a `usize`.
#[verifier::external_body]
fn base64_encode(bytes: &[u8]) -> (r: String)
    requires
        bytes@.len() / 3 * 4 + 4 <= usize::MAX,
    ensures
        r@ == base64_text(bytes@),
        base64_bytes(r@) == Some(bytes@),
{
    base64::Engine::encode(&base64::engine::general_purpose::STANDARD, bytes)
}

/// `rand::RngCore::fill_bytes` on the thread-local generator: `count` bytes
/// of which nothing more is known.
#[verifier::external_body]
fn random_bytes(count: usize) -> (r: Vec<u8>)
    ensures
        r@.len() == count,
{
    let mut bytes = vec![0u8; count];
    rand::RngCore::fill_bytes(&mut rand::thread_rng(), &mut bytes);
    bytes
}

/// A sequence of bytes that may be null.
#[derive(Debug, Eq, Hash)]
pub struct ByteString {
    /// The bytes, or `None` for the null byte string.
    pub value: Option<Vec<u8>>,
}

impl DeepView for ByteString {
    type V = Option<Seq<u8>>;

    open spec fn deep_view(&self) -> Option<Seq<u8>> {
        match self.value {
            None => None,
            Some(bytes) => Some(bytes@),
        }
    }
}

impl View for ByteString {
    type V = Option<Seq<u8>>;

    open spec fn view(&self) -> Option<Seq<u8>> {
        self.deep_view()
    }
}

/// Whether two byte slices hold the same bytes.
pub fn same_bytes(a: &[u8], b: &[u8]) -> (r: bool)
    ensures
        r == (a@ == b@),
{
    if a.len() != b.len() {
        return false;
    }
    let mut i: usize = 0;
    while i < a.len()
        invariant
            i <= a.len(),
            a@.len() == b@.len(),
            forall|j: int| 0 <= j < i ==> a@[j] == b@[j],
        decreases a.len() - i,
    {
        if a[i] != b[i] {
            return false;
        }
        i = i + 1;
    }
    assert(a@ =~= b@);
    true
}

impl PartialEq for ByteString {
    fn eq(&self, other: &ByteString) -> (r: bool) {
        match (&self.value, &other.value) {
            (None, None) => true,
            (Some(a), Some(b)) => same_bytes(a.as_slice(), b.as_slice()),
            _ => false,
        }
    }
}

impl PartialEqSpecImpl for ByteString {
    open spec fn obeys_eq_spec() -> bool {
        true
    }

    open spec fn eq_spec(&self, other: &ByteString) -> bool {
        self@ == other@
    }
}

impl Clone for ByteString {
    fn clone(&self) -> (r: ByteString)
        ensures
            r@ == self@,
    {
        match &self.value {
            None => ByteString { value: None },
            Some(bytes) => ByteString { value: Some(bytes.clone()) },
        }
    }
}

impl Default for ByteString {
    fn default() -> (r: ByteString)
        ensures
            r@ is None,
    {
        ByteString::null()
    }
}

impl ByteString {
    /// The null byte string.
    pub fn null() -> (r: ByteString)
        ensures
            r@ is None,
    {
        ByteString { value: None }
    }

    /// A byte string holding `bytes`.
    pub fn from(bytes: Vec<u8>) -> (r: ByteString)
        ensures
            r@ == Some(bytes@),
    {
        ByteString { value: Some(bytes) }
    }

    /// Whether this is the null byte string.
    pub fn is_null(&self) -> (r: bool)
        ensures
            r == (self@ is None),
    {
        self.value.is_none()
    }

    /// The bytes; none for the null byte string.
    pub fn as_ref(&self) -> (r: &[u8])
        ensures
            r@ == match self@ {
                None => Seq::<u8>::empty(),
                Some(bytes) => bytes,
            },
    {
        match &self.value {
            None => {
                let empty: &[u8] = &[];
                assert(empty@ =~= Seq::<u8>::empty());
                empty
            },
            Some(bytes) => bytes.as_slice(),
        }
    }

    /// The byte string that a base64 text stands for, or `None` where the
    /// text is not base64. The base64 text of a byte string that was read
    /// is the text that it was read from.
    pub fn from_base64(data: &str) -> (r: Option<ByteString>)
        ensures
            match base64_bytes(data@) {
                Some(bytes) => r matches Some(b) && b@ == Some(bytes) && base64_text(bytes)
                    == data@,
                None => r is None,
            },
    {
        match base64_decode(data) {
            Some(bytes) => Some(ByteString { value: Some(bytes) }),
            None => None,
        }
    }

    /// The base64 text of the bytes; the null byte string gives the text of
    /// no bytes.
    pub fn as_base64(&self) -> (r: String)
        requires
            self@ matches Some(bytes) ==> bytes.len() / 3 * 4 + 4 <= usize::MAX,
        ensures
            r@ == base64_text(
                match self@ {
                    None => Seq::<u8>::empty(),
                    Some(bytes) => bytes,
                },
            ),
            base64_bytes(r@) == Some(
                match self@ {
                    None => Seq::<u8>::empty(),
                    Some(bytes) => bytes,
                },
            ),
    {
        base64_encode(self.as_ref())
    }

    /// A byte string of `number_of_bytes` random bytes.
    pub fn random(number_of_bytes: usize) -> (r: ByteString)
        ensures
            r@ matches Some(bytes) && bytes.len() == number_of_bytes,
    {
        ByteString { value: Some(random_bytes(number_of_bytes)) }
    }
}

/// A byte string is its 32-bit signed length, then its bytes; the null byte
/// string is the length -1 alone.
impl BinaryEncoder for ByteString {
    open spec fn wire(v: Option<Seq<u8>>) -> Seq<u8> {
        wire_prefixed(v)
    }

    open spec fn parse(bytes: Seq<u8>, limits: DecodingLimits) -> Parsed<Option<Seq<u8>>> {
        parse_prefixed(bytes, limits.max_byte_string_length)
    }

    open spec fn encodable(v: Option<Seq<u8>>) -> bool {
        v matches Some(bytes) ==> bytes.len() <= i32::MAX
    }

    open spec fn within(v: Option<Seq<u8>>, limits: DecodingLimits) -> bool {
        v matches Some(bytes) ==> bytes.len() <= limits.max_byte_string_length
    }

    proof fn lemma_parse_wire(v: Option<Seq<u8>>, rest: Seq<u8>, limits: DecodingLimits) {
        lemma_parse_wire_prefixed(v, rest, limits.max_byte_string_length);
    }

    proof fn lemma_parse_truncated(v: Option<Seq<u8>>, k: int, limits: DecodingLimits) {
        lemma_parse_truncated_prefixed(v, k, limits.max_byte_string_length);
    }

    proof fn lemma_parse_bound(bytes: Seq<u8>, limits: DecodingLimits) {
    }

    fn byte_len(&self) -> (n: usize) {
        match &self.value {
            None => byte_len_prefixed(None),
            Some(bytes) => {
                let body = bytes.as_slice();
                assert(Some(body).deep_view() == self@) by {
                    assert(body.deep_view() =~= body@);
                }
                byte_len_prefixed(Some(body))
            },
        }
    }

    fn encode(&self, stream: &mut Vec<u8>) -> (r: Result<usize, EncodingError>) {
        match &self.value {
            None => write_prefixed(stream, None),
            Some(bytes) => {
                let body = bytes.as_slice();
                assert(Some(body).deep_view() == self@) by {
                    assert(body.deep_view() =~= body@);
                }
                write_prefixed(stream, Some(body))
            },
        }
    }

    fn decode(stream: &mut Reader, limits: &DecodingLimits) -> (r: Result<Self, EncodingError>) {
        let body = read_prefixed(stream, limits.max_byte_string_length)?;
        proof {
            if let Some(bytes) = &body {
                assert(bytes.deep_view() =~= bytes@);
            }
        }
        Ok(ByteString { value: body })
    }
}


/// A byte string whose prefix announces more bytes than the limit allows is
/// refused for its length, whatever follows the prefix.
pub proof fn lemma_oversize_byte_string(len: i32, rest: Seq<u8>, limits: DecodingLimits)
    requires
        len > limits.max_byte_string_length,
    ensures
        ByteString::parse(i32::wire(len) + rest, limits) == Err::<
            (Option<Seq<u8>>, nat),
            EncodingError,
        >(EncodingError::DecodedLengthExceedsLimit),
{
    lemma_oversize_prefixed(len, rest, limits.max_byte_string_length);
}

} // verus!
