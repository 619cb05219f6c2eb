//! Strings: UTF-8 text, or null.

use crate::encoding::{
    byte_len_prefixed, lemma_oversize_prefixed, lemma_parse_truncated_prefixed,
    lemma_parse_wire_prefixed, parse_prefixed,
    read_prefixed, wire_prefixed, write_prefixed, BinaryEncoder, DecodingLimits, EncodingError,
    Parsed, Reader,
};
use vstd::prelude::*;
use vstd::std_specs::cmp::PartialEqSpecImpl;
use vstd::utf8::{
    decode_utf8, encode_utf8, encode_utf8_decode_utf8, encode_utf8_valid_utf8, valid_utf8,
};

verus! {

/// `String::from_utf8`: the bytes as a string exactly where they are valid
/// UTF-8, and then the text they encode.
#[verifier::external_body]
fn string_from_utf8(bytes: Vec<u8>) -> (r: Option<String>)
    ensures
        r is Some <==> valid_utf8(bytes@),
        r matches Some(s) ==> s@ == decode_utf8(bytes@),
{
    String::from_utf8(bytes).ok()
}

/// A string that may be null.
#[derive(Debug, Eq, Hash)]
pub struct UAString {
    /// The text, or `None` for the null string.
    pub value: Option<String>,
}

/// An XML fragment travels as a string.
pub type XmlElement = UAString;

impl DeepView for UAString {
    type V = Option<Seq<char>>;

    open spec fn deep_view(&self) -> Option<Seq<char>> {
        match self.value {
            None => None,
            Some(text) => Some(text@),
        }
    }
}

impl View for UAString {
    type V = Option<Seq<char>>;

    open spec fn view(&self) -> Option<Seq<char>> {
        self.deep_view()
    }
}

impl PartialEq for UAString {
    fn eq(&self, other: &UAString) -> (r: bool) {
        match (&self.value, &other.value) {
            (None, None) => true,
            (Some(a), Some(b)) => *a == *b,
            _ => false,
        }
    }
}

impl PartialEqSpecImpl for UAString {
    open spec fn obeys_eq_spec() -> bool {
        true
    }

    open spec fn eq_spec(&self, other: &UAString) -> bool {
        self@ == other@
    }
}

impl Clone for UAString {
    fn clone(&self) -> (r: UAString)
        ensures
            r@ == self@,
    {
        match &self.value {
            None => UAString { value: None },
            Some(text) => UAString { value: Some(text.clone()) },
        }
    }
}

impl Default for UAString {
    fn default() -> (r: UAString)
        ensures
            r@ is None,
    {
        UAString::null()
    }
}

impl UAString {
    /// The null string.
    pub fn null() -> (r: UAString)
        ensures
            r@ is None,
    {
        UAString { value: None }
    }

    /// A string holding `text`.
    pub fn from(text: &str) -> (r: UAString)
        ensures
            r@ == Some(text@),
    {
        UAString { value: Some(text.to_owned()) }
    }

    /// Whether this is the null string.
    pub fn is_null(&self) -> (r: bool)
        ensures
            r == (self@ is None),
    {
        self.value.is_none()
    }

    /// Whether this is null or holds no text.
    pub fn is_empty(&self) -> (r: bool)
        ensures
            r == match self@ {
                None => true,
                Some(text) => text.len() == 0,
            },
    {
        match &self.value {
            None => true,
            Some(text) => text.as_str().is_empty(),
        }
    }

    /// The text; the empty text for the null string.
    pub fn as_ref(&self) -> (r: &str)
        ensures
            r@ == match self@ {
                None => Seq::<char>::empty(),
                Some(text) => text,
            },
    {
        match &self.value {
            None => {
                proof {
                    reveal_strlit("");
                }
                assert(""@ =~= Seq::<char>::empty());
                ""
            },
            Some(text) => text.as_str(),
        }
    }

    /// The UTF-8 bytes of the text, where there is one.
    pub open spec fn utf8(v: Option<Seq<char>>) -> Option<Seq<u8>> {
        match v {
            None => None,
            Some(text) => Some(encode_utf8(text)),
        }
    }
}

/// A string is the 32-bit signed length of its UTF-8 bytes, then the bytes;
/// the null string is the length -1 alone.
impl BinaryEncoder for UAString {
    open spec fn wire(v: Option<Seq<char>>) -> Seq<u8> {
        wire_prefixed(Self::utf8(v))
    }

    open spec fn parse(bytes: Seq<u8>, limits: DecodingLimits) -> Parsed<Option<Seq<char>>> {
        match parse_prefixed(bytes, limits.max_string_length) {
            Err(e) => Err(e),
            Ok((None, n)) => Ok((None, n)),
            Ok((Some(body), n)) => if valid_utf8(body) {
                Ok((Some(decode_utf8(body)), n))
            } else {
                Err(EncodingError::InvalidEncoding)
            },
        }
    }

    open spec fn encodable(v: Option<Seq<char>>) -> bool {
        v matches Some(text) ==> encode_utf8(text).len() <= i32::MAX
    }

    open spec fn within(v: Option<Seq<char>>, limits: DecodingLimits) -> bool {
        v matches Some(text) ==> encode_utf8(text).len() <= limits.max_string_length
    }

    proof fn lemma_parse_wire(v: Option<Seq<char>>, rest: Seq<u8>, limits: DecodingLimits) {
        lemma_parse_wire_prefixed(Self::utf8(v), rest, limits.max_string_length);
        if let Some(text) = v {
            encode_utf8_valid_utf8(text);
            encode_utf8_decode_utf8(text);
        }
    }

    proof fn lemma_parse_truncated(v: Option<Seq<char>>, k: int, limits: DecodingLimits) {
        lemma_parse_truncated_prefixed(Self::utf8(v), k, limits.max_string_length);
    }

    proof fn lemma_parse_bound(bytes: Seq<u8>, limits: DecodingLimits) {
    }

    fn byte_len(&self) -> (n: usize) {
        match &self.value {
            None => byte_len_prefixed(None),
            Some(text) => {
                let body = text.as_str().as_bytes();
                assert(Some(body).deep_view() == Self::utf8(self@)) by {
                    assert(body.deep_view() =~= body@);
                }
                byte_len_prefixed(Some(body))
            },
        }
    }

    fn encode(&self, stream: &mut Vec<u8>) -> (r: Result<usize, EncodingError>) {
        match &self.value {
            None => write_prefixed(stream, None),
            Some(text) => {
                let body = text.as_str().as_bytes();
                assert(Some(body).deep_view() == Self::utf8(self@)) by {
                    assert(body.deep_view() =~= body@);
                }
                write_prefixed(stream, Some(body))
            },
        }
    }

    fn decode(stream: &mut Reader, limits: &DecodingLimits) -> (r: Result<Self, EncodingError>) {
        match read_prefixed(stream, limits.max_string_length)? {
            None => Ok(UAString { value: None }),
            Some(body) => {
                assert(body.deep_view() =~= body@);
                match string_from_utf8(body) {
                    Some(text) => Ok(UAString { value: Some(text) }),
                    None => Err(EncodingError::InvalidEncoding),
                }
            },
        }
    }
}


/// A string whose prefix announces more bytes than the limit allows is
/// refused for its length, whatever follows the prefix.
pub proof fn lemma_oversize_string(len: i32, rest: Seq<u8>, limits: DecodingLimits)
    requires
        len > limits.max_string_length,
    ensures
        UAString::parse(i32::wire(len) + rest, limits) == Err::<
            (Option<Seq<char>>, nat),
            EncodingError,
        >(EncodingError::DecodedLengthExceedsLimit),
{
    lemma_oversize_prefixed(len, rest, limits.max_string_length);
}

} // verus!
