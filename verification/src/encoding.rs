//! The binary codec: little-endian primitives, length-prefixed arrays and the
//! contract every wire type meets.

use vstd::bytes::*;
use vstd::prelude::*;
use vstd::slice::{slice_subrange, slice_to_vec};

verus! {

/// Why a value could not be written or read.
#[derive(Clone, Copy, Debug, PartialEq, Eq, Structural)]
pub enum EncodingError {
    /// The input ended before the value was complete.
    UnexpectedEof,
    /// The bytes do not form a value of the type, or the value has a length
    /// that no length prefix can hold.
    InvalidEncoding,
    /// The bytes use a form that is not supported.
    UnsupportedEncoding,
    /// A length prefix is larger than the configured limit.
    DecodedLengthExceedsLimit,
}

/// The largest lengths a decoder accepts.
#[derive(Clone, Copy, Debug, PartialEq, Eq, Structural)]
pub struct DecodingLimits {
    /// Most bytes in a string.
    pub max_string_length: usize,
    /// Most bytes in a byte string.
    pub max_byte_string_length: usize,
    /// Most elements in an array.
    pub max_array_length: usize,
}

/// The limit used where none is configured: 64 KiB.
pub const DEFAULT_MAX_LENGTH: usize = 65536;

impl Default for DecodingLimits {
    fn default() -> (r: Self)
        ensures
            r.max_string_length == DEFAULT_MAX_LENGTH,
            r.max_byte_string_length == DEFAULT_MAX_LENGTH,
            r.max_array_length == DEFAULT_MAX_LENGTH,
    {
        DecodingLimits {
            max_string_length: DEFAULT_MAX_LENGTH,
            max_byte_string_length: DEFAULT_MAX_LENGTH,
            max_array_length: DEFAULT_MAX_LENGTH,
        }
    }
}

/// What a decoder makes of a byte sequence: the value and the number of bytes
/// it took, or the error.
pub type Parsed<V> = Result<(V, nat), EncodingError>;

/// A read position in a borrowed byte buffer. Its view is the bytes not yet read.
pub struct Reader<'a> {
    bytes: &'a [u8],
    position: usize,
}

impl<'a> View for Reader<'a> {
    type V = Seq<u8>;

    closed spec fn view(&self) -> Seq<u8> {
        self.bytes@.skip(self.position as int)
    }
}

impl<'a> Reader<'a> {
    #[verifier::type_invariant]
    spec fn inv(&self) -> bool {
        self.position <= self.bytes@.len()
    }

    /// A reader at the start of `bytes`.
    pub fn new(bytes: &'a [u8]) -> (r: Self)
        ensures
            r@ == bytes@,
    {
        Reader { bytes, position: 0 }
    }

    /// The number of bytes not yet read.
    pub fn remaining(&self) -> (n: usize)
        ensures
            n == self@.len(),
    {
        proof {
            use_type_invariant(self);
        }
        self.bytes.len() - self.position
    }

    /// Takes the next `n` bytes, or fails and takes nothing where fewer are left.
    pub fn take(&mut self, n: usize) -> (r: Result<&'a [u8], EncodingError>)
        ensures
            n <= old(self)@.len() ==> r is Ok && r.unwrap()@ == old(self)@.take(n as int)
                && final(self)@ == old(self)@.skip(n as int),
            n > old(self)@.len() ==> r == Err::<&[u8], EncodingError>(EncodingError::UnexpectedEof)
                && final(self)@ == old(self)@,
    {
        proof {
            use_type_invariant(&*self);
        }
        if n <= self.bytes.len() - self.position {
            let start = self.position;
            let taken = slice_subrange(self.bytes, start, start + n);
            self.position = start + n;
            assert(taken@ =~= old(self)@.take(n as int));
            assert(self@ =~= old(self)@.skip(n as int));
            Ok(taken)
        } else {
            Err(EncodingError::UnexpectedEof)
        }
    }
}


/// Splitting a concatenation gives its parts back.
pub proof fn lemma_concat_split(a: Seq<u8>, b: Seq<u8>)
    ensures
        (a + b).take(a.len() as int) == a,
        (a + b).skip(a.len() as int) == b,
{
    assert((a + b).take(a.len() as int) =~= a);
    assert((a + b).skip(a.len() as int) =~= b);
}

/// Concatenation is associative.
pub proof fn lemma_concat_assoc(a: Seq<u8>, b: Seq<u8>, c: Seq<u8>)
    ensures
        (a + b) + c == a + (b + c),
{
    assert((a + b) + c =~= a + (b + c));
}

/// A prefix of a concatenation is a prefix of the first part, or the first
/// part followed by a prefix of the second.
pub proof fn lemma_concat_take(a: Seq<u8>, b: Seq<u8>, k: int)
    requires
        0 <= k <= a.len() + b.len(),
    ensures
        k <= a.len() ==> (a + b).take(k) == a.take(k),
        k >= a.len() ==> (a + b).take(k) == a + b.take(k - a.len()),
{
    if k <= a.len() {
        assert((a + b).take(k) =~= a.take(k));
    }
    if k >= a.len() {
        assert((a + b).take(k) =~= a + b.take(k - a.len()));
    }
}

/// Skipping twice is skipping once by the sum.
pub proof fn lemma_skip_skip(s: Seq<u8>, m: int, n: int)
    requires
        0 <= m,
        0 <= n,
        m + n <= s.len(),
    ensures
        s.skip(m).skip(n) == s.skip(m + n),
{
    assert(s.skip(m).skip(n) =~= s.skip(m + n));
}

/// A vector's length is a `usize`.
pub proof fn lemma_vec_len_bound(v: &Vec<u8>)
    ensures
        v@.len() <= usize::MAX,
{
    assert(v@.len() == v.len());
}

/// A type with a binary wire form. `deep_view` is the value it stands for;
/// `wire` and `parse` say what the encoder writes and what the decoder makes
/// of any bytes.
pub trait BinaryEncoder: Sized + DeepView {
    /// The bytes that stand for `v`.
    spec fn wire(v: Self::V) -> Seq<u8>;

    /// What decoding makes of `bytes` under `limits`.
    spec fn parse(bytes: Seq<u8>, limits: DecodingLimits) -> Parsed<Self::V>;

    /// Every length in `v` fits the 32-bit signed length prefix.
    spec fn encodable(v: Self::V) -> bool;

    /// Every length in `v` is within `limits`.
    spec fn within(v: Self::V, limits: DecodingLimits) -> bool;

    /// Decoding what was encoded gives the value back and takes exactly the
    /// encoded bytes, whatever follows them.
    proof fn lemma_parse_wire(v: Self::V, rest: Seq<u8>, limits: DecodingLimits)
        requires
            Self::encodable(v),
            Self::within(v, limits),
        ensures
            Self::parse(Self::wire(v) + rest, limits) == Ok::<(Self::V, nat), EncodingError>(
                (v, Self::wire(v).len()),
            ),
    ;

    /// Decoding a proper prefix of an encoding fails for want of bytes.
    proof fn lemma_parse_truncated(v: Self::V, k: int, limits: DecodingLimits)
        requires
            Self::encodable(v),
            Self::within(v, limits),
            0 <= k < Self::wire(v).len(),
        ensures
            Self::parse(Self::wire(v).take(k), limits) == Err::<(Self::V, nat), EncodingError>(
                EncodingError::UnexpectedEof,
            ),
    ;

    /// A decoder takes no more bytes than there are.
    proof fn lemma_parse_bound(bytes: Seq<u8>, limits: DecodingLimits)
        ensures
            Self::parse(bytes, limits) matches Ok((_, n)) ==> n <= bytes.len(),
    ;

    /// The exact length of the encoding.
    fn byte_len(&self) -> (n: usize)
        requires
            Self::wire(self.deep_view()).len() <= usize::MAX,
        ensures
            n == Self::wire(self.deep_view()).len(),
    ;

    /// Appends the encoding to `stream` and returns its length. Fails, having
    /// appended at most a part, exactly where a length does not fit its prefix.
    fn encode(&self, stream: &mut Vec<u8>) -> (r: Result<usize, EncodingError>)
        ensures
            Self::encodable(self.deep_view()) ==> r is Ok && r.unwrap() == Self::wire(
                self.deep_view(),
            ).len() && final(stream)@ == old(stream)@ + Self::wire(self.deep_view()),
            !Self::encodable(self.deep_view()) ==> r == Err::<usize, EncodingError>(
                EncodingError::InvalidEncoding,
            ) && old(stream)@.is_prefix_of(final(stream)@),
    ;

    /// Reads one value from `stream`, exactly as `parse` says of the unread bytes.
    fn decode(stream: &mut Reader, limits: &DecodingLimits) -> (r: Result<Self, EncodingError>)
        ensures
            match Self::parse(old(stream)@, *limits) {
                Ok((v, n)) => r is Ok && r.unwrap().deep_view() == v && final(stream)@ == old(stream)@.skip(n as int),
                Err(e) => r == Err::<Self, EncodingError>(e),
            },
    ;
}

impl BinaryEncoder for u8 {
    open spec fn wire(v: u8) -> Seq<u8> {
        seq![v]
    }

    open spec fn parse(bytes: Seq<u8>, limits: DecodingLimits) -> Parsed<u8> {
        if bytes.len() < 1 {
            Err(EncodingError::UnexpectedEof)
        } else {
            Ok((bytes[0], 1))
        }
    }

    open spec fn encodable(v: u8) -> bool {
        true
    }

    open spec fn within(v: u8, limits: DecodingLimits) -> bool {
        true
    }

    proof fn lemma_parse_wire(v: u8, rest: Seq<u8>, limits: DecodingLimits) {
    }

    proof fn lemma_parse_truncated(v: u8, k: int, limits: DecodingLimits) {
    }

    proof fn lemma_parse_bound(bytes: Seq<u8>, limits: DecodingLimits) {
    }

    fn byte_len(&self) -> (n: usize) {
        1
    }

    fn encode(&self, stream: &mut Vec<u8>) -> (r: Result<usize, EncodingError>) {
        stream.push(*self);
        assert(stream@ =~= old(stream)@ + Self::wire(*self));
        Ok(1)
    }

    fn decode(stream: &mut Reader, limits: &DecodingLimits) -> (r: Result<Self, EncodingError>) {
        let taken = stream.take(1)?;
        Ok(taken[0])
    }
}

impl BinaryEncoder for bool {
    open spec fn wire(v: bool) -> Seq<u8> {
        seq![if v { 1u8 } else { 0u8 }]
    }

    open spec fn parse(bytes: Seq<u8>, limits: DecodingLimits) -> Parsed<bool> {
        if bytes.len() < 1 {
            Err(EncodingError::UnexpectedEof)
        } else {
            Ok((bytes[0] == 1, 1))
        }
    }

    open spec fn encodable(v: bool) -> bool {
        true
    }

    open spec fn within(v: bool, limits: DecodingLimits) -> bool {
        true
    }

    proof fn lemma_parse_wire(v: bool, rest: Seq<u8>, limits: DecodingLimits) {
    }

    proof fn lemma_parse_truncated(v: bool, k: int, limits: DecodingLimits) {
    }

    proof fn lemma_parse_bound(bytes: Seq<u8>, limits: DecodingLimits) {
    }

    fn byte_len(&self) -> (n: usize) {
        1
    }

    fn encode(&self, stream: &mut Vec<u8>) -> (r: Result<usize, EncodingError>) {
        stream.push(if *self { 1 } else { 0 });
        assert(stream@ =~= old(stream)@ + Self::wire(*self));
        Ok(1)
    }

    fn decode(stream: &mut Reader, limits: &DecodingLimits) -> (r: Result<Self, EncodingError>) {
        let taken = stream.take(1)?;
        Ok(taken[0] == 1)
    }
}

impl BinaryEncoder for u16 {
    open spec fn wire(v: u16) -> Seq<u8> {
        spec_u16_to_le_bytes(v)
    }

    open spec fn parse(bytes: Seq<u8>, limits: DecodingLimits) -> Parsed<u16> {
        if bytes.len() < 2 {
            Err(EncodingError::UnexpectedEof)
        } else {
            Ok((spec_u16_from_le_bytes(bytes.take(2)), 2))
        }
    }

    open spec fn encodable(v: u16) -> bool {
        true
    }

    open spec fn within(v: u16, limits: DecodingLimits) -> bool {
        true
    }

    proof fn lemma_parse_wire(v: u16, rest: Seq<u8>, limits: DecodingLimits) {
        lemma_auto_spec_u16_to_from_le_bytes();
        lemma_concat_split(Self::wire(v), rest);
    }

    proof fn lemma_parse_truncated(v: u16, k: int, limits: DecodingLimits) {
        lemma_auto_spec_u16_to_from_le_bytes();
    }

    proof fn lemma_parse_bound(bytes: Seq<u8>, limits: DecodingLimits) {
    }

    fn byte_len(&self) -> (n: usize) {
        proof {
            lemma_auto_spec_u16_to_from_le_bytes();
        }
        2
    }

    fn encode(&self, stream: &mut Vec<u8>) -> (r: Result<usize, EncodingError>) {
        proof {
            lemma_auto_spec_u16_to_from_le_bytes();
        }
        let bytes = u16_to_le_bytes(*self);
        stream.extend_from_slice(bytes.as_slice());
        Ok(2)
    }

    fn decode(stream: &mut Reader, limits: &DecodingLimits) -> (r: Result<Self, EncodingError>) {
        let taken = stream.take(2)?;
        Ok(u16_from_le_bytes(taken))
    }
}

impl BinaryEncoder for u32 {
    open spec fn wire(v: u32) -> Seq<u8> {
        spec_u32_to_le_bytes(v)
    }

    open spec fn parse(bytes: Seq<u8>, limits: DecodingLimits) -> Parsed<u32> {
        if bytes.len() < 4 {
            Err(EncodingError::UnexpectedEof)
        } else {
            Ok((spec_u32_from_le_bytes(bytes.take(4)), 4))
        }
    }

    open spec fn encodable(v: u32) -> bool {
        true
    }

    open spec fn within(v: u32, limits: DecodingLimits) -> bool {
        true
    }

    proof fn lemma_parse_wire(v: u32, rest: Seq<u8>, limits: DecodingLimits) {
        lemma_auto_spec_u32_to_from_le_bytes();
        lemma_concat_split(Self::wire(v), rest);
    }

    proof fn lemma_parse_truncated(v: u32, k: int, limits: DecodingLimits) {
        lemma_auto_spec_u32_to_from_le_bytes();
    }

    proof fn lemma_parse_bound(bytes: Seq<u8>, limits: DecodingLimits) {
    }

    fn byte_len(&self) -> (n: usize) {
        proof {
            lemma_auto_spec_u32_to_from_le_bytes();
        }
        4
    }

    fn encode(&self, stream: &mut Vec<u8>) -> (r: Result<usize, EncodingError>) {
        proof {
            lemma_auto_spec_u32_to_from_le_bytes();
        }
        let bytes = u32_to_le_bytes(*self);
        stream.extend_from_slice(bytes.as_slice());
        Ok(4)
    }

    fn decode(stream: &mut Reader, limits: &DecodingLimits) -> (r: Result<Self, EncodingError>) {
        let taken = stream.take(4)?;
        Ok(u32_from_le_bytes(taken))
    }
}

impl BinaryEncoder for u64 {
    open spec fn wire(v: u64) -> Seq<u8> {
        spec_u64_to_le_bytes(v)
    }

    open spec fn parse(bytes: Seq<u8>, limits: DecodingLimits) -> Parsed<u64> {
        if bytes.len() < 8 {
            Err(EncodingError::UnexpectedEof)
        } else {
            Ok((spec_u64_from_le_bytes(bytes.take(8)), 8))
        }
    }

    open spec fn encodable(v: u64) -> bool {
        true
    }

    open spec fn within(v: u64, limits: DecodingLimits) -> bool {
        true
    }

    proof fn lemma_parse_wire(v: u64, rest: Seq<u8>, limits: DecodingLimits) {
        lemma_auto_spec_u64_to_from_le_bytes();
        lemma_concat_split(Self::wire(v), rest);
    }

    proof fn lemma_parse_truncated(v: u64, k: int, limits: DecodingLimits) {
        lemma_auto_spec_u64_to_from_le_bytes();
    }

    proof fn lemma_parse_bound(bytes: Seq<u8>, limits: DecodingLimits) {
    }

    fn byte_len(&self) -> (n: usize) {
        proof {
            lemma_auto_spec_u64_to_from_le_bytes();
        }
        8
    }

    fn encode(&self, stream: &mut Vec<u8>) -> (r: Result<usize, EncodingError>) {
        proof {
            lemma_auto_spec_u64_to_from_le_bytes();
        }
        let bytes = u64_to_le_bytes(*self);
        stream.extend_from_slice(bytes.as_slice());
        Ok(8)
    }

    fn decode(stream: &mut Reader, limits: &DecodingLimits) -> (r: Result<Self, EncodingError>) {
        let taken = stream.take(8)?;
        Ok(u64_from_le_bytes(taken))
    }
}

impl BinaryEncoder for i8 {
    open spec fn wire(v: i8) -> Seq<u8> {
        seq![v as u8]
    }

    open spec fn parse(bytes: Seq<u8>, limits: DecodingLimits) -> Parsed<i8> {
        if bytes.len() < 1 {
            Err(EncodingError::UnexpectedEof)
        } else {
            Ok((bytes[0] as i8, 1))
        }
    }

    open spec fn encodable(v: i8) -> bool {
        true
    }

    open spec fn within(v: i8, limits: DecodingLimits) -> bool {
        true
    }

    proof fn lemma_parse_wire(v: i8, rest: Seq<u8>, limits: DecodingLimits) {
        assert((v as u8) as i8 == v) by (bit_vector);
    }

    proof fn lemma_parse_truncated(v: i8, k: int, limits: DecodingLimits) {
    }

    proof fn lemma_parse_bound(bytes: Seq<u8>, limits: DecodingLimits) {
    }

    fn byte_len(&self) -> (n: usize) {
        1
    }

    fn encode(&self, stream: &mut Vec<u8>) -> (r: Result<usize, EncodingError>) {
        stream.push(*self as u8);
        assert(stream@ =~= old(stream)@ + Self::wire(*self));
        Ok(1)
    }

    fn decode(stream: &mut Reader, limits: &DecodingLimits) -> (r: Result<Self, EncodingError>) {
        let taken = stream.take(1)?;
        Ok(taken[0] as i8)
    }
}

impl BinaryEncoder for i16 {
    open spec fn wire(v: i16) -> Seq<u8> {
        spec_u16_to_le_bytes(v as u16)
    }

    open spec fn parse(bytes: Seq<u8>, limits: DecodingLimits) -> Parsed<i16> {
        if bytes.len() < 2 {
            Err(EncodingError::UnexpectedEof)
        } else {
            Ok((spec_u16_from_le_bytes(bytes.take(2)) as i16, 2))
        }
    }

    open spec fn encodable(v: i16) -> bool {
        true
    }

    open spec fn within(v: i16, limits: DecodingLimits) -> bool {
        true
    }

    proof fn lemma_parse_wire(v: i16, rest: Seq<u8>, limits: DecodingLimits) {
        lemma_auto_spec_u16_to_from_le_bytes();
        lemma_concat_split(Self::wire(v), rest);
        assert((v as u16) as i16 == v) by (bit_vector);
    }

    proof fn lemma_parse_truncated(v: i16, k: int, limits: DecodingLimits) {
        lemma_auto_spec_u16_to_from_le_bytes();
    }

    proof fn lemma_parse_bound(bytes: Seq<u8>, limits: DecodingLimits) {
    }

    fn byte_len(&self) -> (n: usize) {
        proof {
            lemma_auto_spec_u16_to_from_le_bytes();
        }
        2
    }

    fn encode(&self, stream: &mut Vec<u8>) -> (r: Result<usize, EncodingError>) {
        proof {
            lemma_auto_spec_u16_to_from_le_bytes();
        }
        let bytes = u16_to_le_bytes(*self as u16);
        stream.extend_from_slice(bytes.as_slice());
        Ok(2)
    }

    fn decode(stream: &mut Reader, limits: &DecodingLimits) -> (r: Result<Self, EncodingError>) {
        let taken = stream.take(2)?;
        Ok(u16_from_le_bytes(taken) as i16)
    }
}

impl BinaryEncoder for i32 {
    open spec fn wire(v: i32) -> Seq<u8> {
        spec_u32_to_le_bytes(v as u32)
    }

    open spec fn parse(bytes: Seq<u8>, limits: DecodingLimits) -> Parsed<i32> {
        if bytes.len() < 4 {
            Err(EncodingError::UnexpectedEof)
        } else {
            Ok((spec_u32_from_le_bytes(bytes.take(4)) as i32, 4))
        }
    }

    open spec fn encodable(v: i32) -> bool {
        true
    }

    open spec fn within(v: i32, limits: DecodingLimits) -> bool {
        true
    }

    proof fn lemma_parse_wire(v: i32, rest: Seq<u8>, limits: DecodingLimits) {
        lemma_auto_spec_u32_to_from_le_bytes();
        lemma_concat_split(Self::wire(v), rest);
        assert((v as u32) as i32 == v) by (bit_vector);
    }

    proof fn lemma_parse_truncated(v: i32, k: int, limits: DecodingLimits) {
        lemma_auto_spec_u32_to_from_le_bytes();
    }

    proof fn lemma_parse_bound(bytes: Seq<u8>, limits: DecodingLimits) {
    }

    fn byte_len(&self) -> (n: usize) {
        proof {
            lemma_auto_spec_u32_to_from_le_bytes();
        }
        4
    }

    fn encode(&self, stream: &mut Vec<u8>) -> (r: Result<usize, EncodingError>) {
        proof {
            lemma_auto_spec_u32_to_from_le_bytes();
        }
        let bytes = u32_to_le_bytes(*self as u32);
        stream.extend_from_slice(bytes.as_slice());
        Ok(4)
    }

    fn decode(stream: &mut Reader, limits: &DecodingLimits) -> (r: Result<Self, EncodingError>) {
        let taken = stream.take(4)?;
        Ok(u32_from_le_bytes(taken) as i32)
    }
}

impl BinaryEncoder for i64 {
    open spec fn wire(v: i64) -> Seq<u8> {
        spec_u64_to_le_bytes(v as u64)
    }

    open spec fn parse(bytes: Seq<u8>, limits: DecodingLimits) -> Parsed<i64> {
        if bytes.len() < 8 {
            Err(EncodingError::UnexpectedEof)
        } else {
            Ok((spec_u64_from_le_bytes(bytes.take(8)) as i64, 8))
        }
    }

    open spec fn encodable(v: i64) -> bool {
        true
    }

    open spec fn within(v: i64, limits: DecodingLimits) -> bool {
        true
    }

    proof fn lemma_parse_wire(v: i64, rest: Seq<u8>, limits: DecodingLimits) {
        lemma_auto_spec_u64_to_from_le_bytes();
        lemma_concat_split(Self::wire(v), rest);
        assert((v as u64) as i64 == v) by (bit_vector);
    }

    proof fn lemma_parse_truncated(v: i64, k: int, limits: DecodingLimits) {
        lemma_auto_spec_u64_to_from_le_bytes();
    }

    proof fn lemma_parse_bound(bytes: Seq<u8>, limits: DecodingLimits) {
    }

    fn byte_len(&self) -> (n: usize) {
        proof {
            lemma_auto_spec_u64_to_from_le_bytes();
        }
        8
    }

    fn encode(&self, stream: &mut Vec<u8>) -> (r: Result<usize, EncodingError>) {
        proof {
            lemma_auto_spec_u64_to_from_le_bytes();
        }
        let bytes = u64_to_le_bytes(*self as u64);
        stream.extend_from_slice(bytes.as_slice());
        Ok(8)
    }

    fn decode(stream: &mut Reader, limits: &DecodingLimits) -> (r: Result<Self, EncodingError>) {
        let taken = stream.take(8)?;
        Ok(u64_from_le_bytes(taken) as i64)
    }
}

/// Two values one after the other.
impl<A: BinaryEncoder, B: BinaryEncoder> BinaryEncoder for (A, B) {
    open spec fn wire(v: (A::V, B::V)) -> Seq<u8> {
        A::wire(v.0) + B::wire(v.1)
    }

    open spec fn parse(bytes: Seq<u8>, limits: DecodingLimits) -> Parsed<(A::V, B::V)> {
        match A::parse(bytes, limits) {
            Err(e) => Err(e),
            Ok((a, n)) => match B::parse(bytes.skip(n as int), limits) {
                Err(e) => Err(e),
                Ok((b, m)) => Ok(((a, b), n + m)),
            },
        }
    }

    open spec fn encodable(v: (A::V, B::V)) -> bool {
        A::encodable(v.0) && B::encodable(v.1)
    }

    open spec fn within(v: (A::V, B::V), limits: DecodingLimits) -> bool {
        A::within(v.0, limits) && B::within(v.1, limits)
    }

    proof fn lemma_parse_wire(v: (A::V, B::V), rest: Seq<u8>, limits: DecodingLimits) {
        let wa = A::wire(v.0);
        let wb = B::wire(v.1);
        lemma_concat_assoc(wa, wb, rest);
        A::lemma_parse_wire(v.0, wb + rest, limits);
        lemma_concat_split(wa, wb + rest);
        B::lemma_parse_wire(v.1, rest, limits);
    }

    proof fn lemma_parse_truncated(v: (A::V, B::V), k: int, limits: DecodingLimits) {
        let wa = A::wire(v.0);
        let wb = B::wire(v.1);
        lemma_concat_take(wa, wb, k);
        if k < wa.len() {
            A::lemma_parse_truncated(v.0, k, limits);
        } else {
            let tail = wb.take(k - wa.len());
            A::lemma_parse_wire(v.0, tail, limits);
            lemma_concat_split(wa, tail);
            B::lemma_parse_truncated(v.1, k - wa.len(), limits);
        }
    }

    proof fn lemma_parse_bound(bytes: Seq<u8>, limits: DecodingLimits) {
        A::lemma_parse_bound(bytes, limits);
        if let Ok((a, n)) = A::parse(bytes, limits) {
            B::lemma_parse_bound(bytes.skip(n as int), limits);
        }
    }

    fn byte_len(&self) -> (n: usize) {
        self.0.byte_len() + self.1.byte_len()
    }

    fn encode(&self, stream: &mut Vec<u8>) -> (r: Result<usize, EncodingError>) {
        let n = self.0.encode(stream)?;
        let m = self.1.encode(stream)?;
        proof {
            lemma_concat_assoc(old(stream)@, A::wire(self.0.deep_view()), B::wire(self.1.deep_view()));
            lemma_vec_len_bound(stream);
        }
        Ok(n + m)
    }

    fn decode(stream: &mut Reader, limits: &DecodingLimits) -> (r: Result<Self, EncodingError>) {
        let a = A::decode(stream, limits)?;
        let ghost rest = stream@;
        let b = B::decode(stream, limits)?;
        proof {
            A::lemma_parse_bound(old(stream)@, *limits);
            B::lemma_parse_bound(rest, *limits);
            let n = A::parse(old(stream)@, *limits).unwrap().1;
            let m = B::parse(rest, *limits).unwrap().1;
            lemma_skip_skip(old(stream)@, n as int, m as int);
        }
        Ok((a, b))
    }
}


/// The elements of an array one after the other.
pub open spec fn wire_elements<T: BinaryEncoder>(vs: Seq<T::V>) -> Seq<u8>
    decreases vs.len(),
{
    if vs.len() == 0 {
        Seq::empty()
    } else {
        T::wire(vs[0]) + wire_elements::<T>(vs.skip(1))
    }
}

/// What decoding `count` elements in a row makes of `bytes`.
pub open spec fn parse_elements<T: BinaryEncoder>(
    bytes: Seq<u8>,
    limits: DecodingLimits,
    count: nat,
) -> Parsed<Seq<T::V>>
    decreases count,
{
    if count == 0 {
        Ok((Seq::empty(), 0))
    } else {
        match T::parse(bytes, limits) {
            Err(e) => Err(e),
            Ok((v, n)) => match parse_elements::<T>(bytes.skip(n as int), limits, (count - 1) as nat) {
                Err(e) => Err(e),
                Ok((vs, m)) => Ok((seq![v] + vs, n + m)),
            },
        }
    }
}

/// Every element fits its length prefixes.
pub open spec fn elements_encodable<T: BinaryEncoder>(vs: Seq<T::V>) -> bool {
    forall|i: int| 0 <= i < vs.len() ==> T::encodable(#[trigger] vs[i])
}

/// Every element is within `limits`.
pub open spec fn elements_within<T: BinaryEncoder>(vs: Seq<T::V>, limits: DecodingLimits) -> bool {
    forall|i: int| 0 <= i < vs.len() ==> T::within(#[trigger] vs[i], limits)
}

/// Decoding encoded elements gives them back.
pub proof fn lemma_parse_wire_elements<T: BinaryEncoder>(
    vs: Seq<T::V>,
    rest: Seq<u8>,
    limits: DecodingLimits,
)
    requires
        elements_encodable::<T>(vs),
        elements_within::<T>(vs, limits),
    ensures
        parse_elements::<T>(wire_elements::<T>(vs) + rest, limits, vs.len()) == Ok::<
            (Seq<T::V>, nat),
            EncodingError,
        >((vs, wire_elements::<T>(vs).len())),
    decreases vs.len(),
{
    if vs.len() > 0 {
        let head = T::wire(vs[0]);
        let tail = wire_elements::<T>(vs.skip(1));
        lemma_concat_assoc(head, tail, rest);
        T::lemma_parse_wire(vs[0], tail + rest, limits);
        lemma_concat_split(head, tail + rest);
        assert forall|i: int| 0 <= i < vs.skip(1).len() implies T::encodable(
            #[trigger] vs.skip(1)[i],
        ) && T::within(vs.skip(1)[i], limits) by {
            assert(vs.skip(1)[i] == vs[i + 1]);
        }
        lemma_parse_wire_elements::<T>(vs.skip(1), rest, limits);
        assert(seq![vs[0]] + vs.skip(1) =~= vs);
    } else {
        assert(vs =~= Seq::<T::V>::empty());
        assert(wire_elements::<T>(vs) + rest =~= rest);
    }
}

/// Decoding a proper prefix of encoded elements fails for want of bytes.
pub proof fn lemma_parse_truncated_elements<T: BinaryEncoder>(
    vs: Seq<T::V>,
    k: int,
    limits: DecodingLimits,
)
    requires
        elements_encodable::<T>(vs),
        elements_within::<T>(vs, limits),
        0 <= k < wire_elements::<T>(vs).len(),
    ensures
        parse_elements::<T>(wire_elements::<T>(vs).take(k), limits, vs.len()) == Err::<
            (Seq<T::V>, nat),
            EncodingError,
        >(EncodingError::UnexpectedEof),
    decreases vs.len(),
{
    if vs.len() > 0 {
        let head = T::wire(vs[0]);
        let tail = wire_elements::<T>(vs.skip(1));
        lemma_concat_take(head, tail, k);
        if k < head.len() {
            T::lemma_parse_truncated(vs[0], k, limits);
        } else {
            let cut = tail.take(k - head.len());
            T::lemma_parse_wire(vs[0], cut, limits);
            lemma_concat_split(head, cut);
            assert forall|i: int| 0 <= i < vs.skip(1).len() implies T::encodable(
                #[trigger] vs.skip(1)[i],
            ) && T::within(vs.skip(1)[i], limits) by {
                assert(vs.skip(1)[i] == vs[i + 1]);
            }
            lemma_parse_truncated_elements::<T>(vs.skip(1), k - head.len(), limits);
        }
    }
}

/// Decoding elements takes no more bytes than there are.
pub proof fn lemma_parse_bound_elements<T: BinaryEncoder>(
    bytes: Seq<u8>,
    limits: DecodingLimits,
    count: nat,
)
    ensures
        parse_elements::<T>(bytes, limits, count) matches Ok((vs, n)) ==> n <= bytes.len()
            && vs.len() == count,
    decreases count,
{
    if count > 0 {
        T::lemma_parse_bound(bytes, limits);
        if let Ok((v, n)) = T::parse(bytes, limits) {
            lemma_parse_bound_elements::<T>(bytes.skip(n as int), limits, (count - 1) as nat);
        }
    }
}

/// The encoding of the elements from `i` on is that of element `i` followed
/// by that of the elements after it.
pub proof fn lemma_wire_elements_step<T: BinaryEncoder>(vs: Seq<T::V>, i: int)
    requires
        0 <= i < vs.len(),
    ensures
        wire_elements::<T>(vs.skip(i)) == T::wire(vs[i]) + wire_elements::<T>(vs.skip(i + 1)),
{
    assert(vs.skip(i).skip(1) =~= vs.skip(i + 1));
}


/// An array: a 32-bit signed length, -1 for the null array, then the elements.
impl<T: BinaryEncoder> BinaryEncoder for Option<Vec<T>> {
    open spec fn wire(v: Option<Seq<T::V>>) -> Seq<u8> {
        match v {
            None => i32::wire(-1i32),
            Some(vs) => i32::wire(vs.len() as i32) + wire_elements::<T>(vs),
        }
    }

    open spec fn parse(bytes: Seq<u8>, limits: DecodingLimits) -> Parsed<Option<Seq<T::V>>> {
        match i32::parse(bytes, limits) {
            Err(e) => Err(e),
            Ok((len, _)) => if len == -1 {
                Ok((None, 4))
            } else if len < -1 {
                Err(EncodingError::InvalidEncoding)
            } else if len > limits.max_array_length {
                Err(EncodingError::DecodedLengthExceedsLimit)
            } else {
                match parse_elements::<T>(bytes.skip(4), limits, len as nat) {
                    Err(e) => Err(e),
                    Ok((vs, n)) => Ok((Some(vs), 4 + n)),
                }
            },
        }
    }

    open spec fn encodable(v: Option<Seq<T::V>>) -> bool {
        match v {
            None => true,
            Some(vs) => vs.len() <= i32::MAX && elements_encodable::<T>(vs),
        }
    }

    open spec fn within(v: Option<Seq<T::V>>, limits: DecodingLimits) -> bool {
        match v {
            None => true,
            Some(vs) => vs.len() <= limits.max_array_length && elements_within::<T>(vs, limits),
        }
    }

    proof fn lemma_parse_wire(v: Option<Seq<T::V>>, rest: Seq<u8>, limits: DecodingLimits) {
        match v {
            None => {
                i32::lemma_parse_wire(-1i32, rest, limits);
            },
            Some(vs) => {
                let head = i32::wire(vs.len() as i32);
                let body = wire_elements::<T>(vs);
                lemma_concat_assoc(head, body, rest);
                i32::lemma_parse_wire(vs.len() as i32, body + rest, limits);
                lemma_concat_split(head, body + rest);
                lemma_parse_wire_elements::<T>(vs, rest, limits);
            },
        }
    }

    proof fn lemma_parse_truncated(v: Option<Seq<T::V>>, k: int, limits: DecodingLimits) {
        match v {
            None => {
                i32::lemma_parse_truncated(-1i32, k, limits);
            },
            Some(vs) => {
                let head = i32::wire(vs.len() as i32);
                let body = wire_elements::<T>(vs);
                lemma_concat_take(head, body, k);
                if k < head.len() {
                    i32::lemma_parse_truncated(vs.len() as i32, k, limits);
                } else {
                    let cut = body.take(k - head.len());
                    i32::lemma_parse_wire(vs.len() as i32, cut, limits);
                    lemma_concat_split(head, cut);
                    lemma_parse_truncated_elements::<T>(vs, k - head.len(), limits);
                }
            },
        }
    }

    proof fn lemma_parse_bound(bytes: Seq<u8>, limits: DecodingLimits) {
        if let Ok((len, _)) = i32::parse(bytes, limits) {
            if len >= 0 {
                lemma_parse_bound_elements::<T>(bytes.skip(4), limits, len as nat);
            }
        }
    }

    fn byte_len(&self) -> (n: usize) {
        byte_len_array(self)
    }

    fn encode(&self, stream: &mut Vec<u8>) -> (r: Result<usize, EncodingError>) {
        write_array(stream, self)
    }

    fn decode(stream: &mut Reader, limits: &DecodingLimits) -> (r: Result<Self, EncodingError>) {
        read_array(stream, limits)
    }
}

/// The exact length of the encoding of an array.
pub fn byte_len_array<T: BinaryEncoder>(values: &Option<Vec<T>>) -> (n: usize)
    requires
        <Option<Vec<T>>>::wire(values.deep_view()).len() <= usize::MAX,
    ensures
        n == <Option<Vec<T>>>::wire(values.deep_view()).len(),
{
    proof {
        lemma_auto_spec_u32_to_from_le_bytes();
    }
    match values {
        None => 4,
        Some(items) => {
            let ghost vs = items.deep_view();
            let mut size: usize = 4;
            let mut i: usize = 0;
            proof {
                assert(vs.skip(0) =~= vs);
            }
            while i < items.len()
                invariant
                    i <= items.len(),
                    vs == items.deep_view(),
                    vs.len() == items.len(),
                    size + wire_elements::<T>(vs.skip(i as int)).len() == 4 + wire_elements::<T>(
                        vs,
                    ).len(),
                    4 + wire_elements::<T>(vs).len() <= usize::MAX,
                decreases items.len() - i,
            {
                proof {
                    lemma_wire_elements_step::<T>(vs, i as int);
                }
                size = size + items[i].byte_len();
                i = i + 1;
            }
            size
        },
    }
}

/// Appends an array to `stream` and returns the length of what it wrote.
pub fn write_array<T: BinaryEncoder>(stream: &mut Vec<u8>, values: &Option<Vec<T>>) -> (r: Result<
    usize,
    EncodingError,
>)
    ensures
        <Option<Vec<T>>>::encodable(values.deep_view()) ==> r is Ok && r.unwrap() == <Option<
            Vec<T>,
        >>::wire(values.deep_view()).len() && final(stream)@ == old(stream)@ + <Option<
            Vec<T>,
        >>::wire(values.deep_view()),
        !<Option<Vec<T>>>::encodable(values.deep_view()) ==> r == Err::<usize, EncodingError>(
            EncodingError::InvalidEncoding,
        ) && old(stream)@.is_prefix_of(final(stream)@),
{
    proof {
        lemma_auto_spec_u32_to_from_le_bytes();
    }
    match values {
        None => {
            let minus_one: i32 = -1;
            minus_one.encode(stream)
        },
        Some(items) => {
            let ghost vs = items.deep_view();
            if items.len() > 2147483647 {
                return Err(EncodingError::InvalidEncoding);
            }
            let len: i32 = items.len() as i32;
            let mut size: usize = len.encode(stream)?;
            let ghost head = stream@;
            let mut i: usize = 0;
            proof {
                assert(vs.skip(0) =~= vs);
                assert(head + Seq::<u8>::empty() =~= head);
            }
            while i < items.len()
                invariant
                    i <= items.len(),
                    vs == items.deep_view(),
                    vs.len() == items.len(),
                    vs.len() <= i32::MAX,
                    values.deep_view() == Some(vs),
                    head == old(stream)@ + i32::wire(vs.len() as i32),
                    old(stream)@.is_prefix_of(stream@),
                    forall|j: int| 0 <= j < i ==> T::encodable(#[trigger] vs[j]),
                    stream@ + wire_elements::<T>(vs.skip(i as int)) == head + wire_elements::<T>(
                        vs,
                    ),
                    size + wire_elements::<T>(vs.skip(i as int)).len() == 4 + wire_elements::<T>(
                        vs,
                    ).len(),
                    size + old(stream)@.len() == stream@.len(),
                decreases items.len() - i,
            {
                let ghost before = stream@;
                proof {
                    lemma_wire_elements_step::<T>(vs, i as int);
                }
                let written = match items[i].encode(stream) {
                    Ok(n) => n,
                    Err(e) => {
                        assert(!T::encodable(vs[i as int]));
                        return Err(e);
                    },
                };
                proof {
                    lemma_vec_len_bound(stream);
                    lemma_concat_assoc(
                        before,
                        T::wire(vs[i as int]),
                        wire_elements::<T>(vs.skip(i + 1)),
                    );
                }
                size = size + written;
                i = i + 1;
            }
            proof {
                assert(vs.skip(vs.len() as int) =~= Seq::<T::V>::empty());
                assert(stream@ + Seq::<u8>::empty() =~= stream@);
                lemma_concat_assoc(
                    old(stream)@,
                    i32::wire(vs.len() as i32),
                    wire_elements::<T>(vs),
                );
            }
            Ok(size)
        },
    }
}

/// Reads an array from `stream`.
pub fn read_array<T: BinaryEncoder>(stream: &mut Reader, limits: &DecodingLimits) -> (r: Result<
    Option<Vec<T>>,
    EncodingError,
>)
    ensures
        match <Option<Vec<T>>>::parse(old(stream)@, *limits) {
            Ok((v, n)) => r is Ok && r.unwrap().deep_view() == v && final(stream)@ == old(stream)@.skip(n as int),
            Err(e) => r == Err::<Option<Vec<T>>, EncodingError>(e),
        },
{
    let len = i32::decode(stream, limits)?;
    if len == -1 {
        return Ok(None);
    }
    if len < -1 {
        return Err(EncodingError::InvalidEncoding);
    }
    if len as usize > limits.max_array_length {
        return Err(EncodingError::DecodedLengthExceedsLimit);
    }
    let count: usize = len as usize;
    let ghost body = stream@;
    let ghost mut taken: nat = 0;
    let mut items: Vec<T> = Vec::with_capacity(count);
    let mut i: usize = 0;
    proof {
        assert(body.skip(0) =~= body);
        lemma_parse_bound_elements::<T>(body, *limits, count as nat);
        if let Ok((vs, m)) = parse_elements::<T>(body, *limits, count as nat) {
            assert(items.deep_view() + vs =~= vs);
        }
    }
    while i < count
        invariant
            i <= count,
            items@.len() == i,
            taken <= body.len(),
            count == len,
            0 <= len <= limits.max_array_length,
            i32::parse(old(stream)@, *limits) == Ok::<(i32, nat), EncodingError>((len, 4)),
            body == old(stream)@.skip(4),
            stream@ == body.skip(taken as int),
            parse_elements::<T>(body, *limits, count as nat) == match parse_elements::<T>(
                stream@,
                *limits,
                (count - i) as nat,
            ) {
                Err(e) => Err::<(Seq<T::V>, nat), EncodingError>(e),
                Ok((vs, m)) => Ok((items.deep_view() + vs, taken + m)),
            },
        decreases count - i,
    {
        let ghost before = stream@;
        let ghost done = items.deep_view();
        let item = T::decode(stream, limits)?;
        proof {
            T::lemma_parse_bound(before, *limits);
            let n = T::parse(before, *limits).unwrap().1;
            lemma_skip_skip(body, taken as int, n as int);
            taken = taken + n;
        }
        items.push(item);
        i = i + 1;
        proof {
            assert(items.deep_view() =~= done.push(item.deep_view()));
            if let Ok((vs, m)) = parse_elements::<T>(stream@, *limits, (count - i) as nat) {
                assert(done + (seq![item.deep_view()] + vs) =~= items.deep_view() + vs);
            }
        }
    }
    proof {
        assert(items.deep_view() + Seq::<T::V>::empty() =~= items.deep_view());
        lemma_skip_skip(old(stream)@, 4, taken as int);
    }
    Ok(Some(items))
}


/// Bytes behind a 32-bit signed length, -1 for null.
pub open spec fn wire_prefixed(body: Option<Seq<u8>>) -> Seq<u8> {
    match body {
        None => i32::wire(-1i32),
        Some(b) => i32::wire(b.len() as i32) + b,
    }
}

/// What decoding length-prefixed bytes makes of `bytes`, with `max` the
/// largest length accepted.
pub open spec fn parse_prefixed(bytes: Seq<u8>, max: usize) -> Parsed<Option<Seq<u8>>> {
    if bytes.len() < 4 {
        Err(EncodingError::UnexpectedEof)
    } else {
        let len = spec_u32_from_le_bytes(bytes.take(4)) as i32;
        if len == -1 {
            Ok((None, 4))
        } else if len < -1 {
            Err(EncodingError::InvalidEncoding)
        } else if len > max {
            Err(EncodingError::DecodedLengthExceedsLimit)
        } else if bytes.len() - 4 < len {
            Err(EncodingError::UnexpectedEof)
        } else {
            Ok((Some(bytes.subrange(4, 4 + len)), (4 + len) as nat))
        }
    }
}

/// Decoding encoded length-prefixed bytes gives them back.
pub proof fn lemma_parse_wire_prefixed(body: Option<Seq<u8>>, rest: Seq<u8>, max: usize)
    requires
        body matches Some(b) ==> b.len() <= i32::MAX && b.len() <= max,
    ensures
        parse_prefixed(wire_prefixed(body) + rest, max) == Ok::<(Option<Seq<u8>>, nat), EncodingError>(
            (body, wire_prefixed(body).len()),
        ),
{
    let limits = DecodingLimits { max_string_length: 0, max_byte_string_length: 0, max_array_length: 0 };
    match body {
        None => {
            i32::lemma_parse_wire(-1i32, rest, limits);
        },
        Some(b) => {
            let head = i32::wire(b.len() as i32);
            lemma_concat_assoc(head, b, rest);
            i32::lemma_parse_wire(b.len() as i32, b + rest, limits);
            assert((head + b + rest).subrange(4, 4 + b.len() as int) =~= b);
        },
    }
}

/// Decoding a proper prefix of encoded length-prefixed bytes fails for want
/// of bytes.
pub proof fn lemma_parse_truncated_prefixed(body: Option<Seq<u8>>, k: int, max: usize)
    requires
        body matches Some(b) ==> b.len() <= i32::MAX && b.len() <= max,
        0 <= k < wire_prefixed(body).len(),
    ensures
        parse_prefixed(wire_prefixed(body).take(k), max) == Err::<(Option<Seq<u8>>, nat), EncodingError>(
            EncodingError::UnexpectedEof,
        ),
{
    let limits = DecodingLimits { max_string_length: 0, max_byte_string_length: 0, max_array_length: 0 };
    lemma_auto_spec_u32_to_from_le_bytes();
    match body {
        None => {},
        Some(b) => {
            let head = i32::wire(b.len() as i32);
            lemma_concat_take(head, b, k);
            if k >= 4 {
                let cut = b.take(k - 4);
                i32::lemma_parse_wire(b.len() as i32, cut, limits);
            }
        },
    }
}

/// The exact length of length-prefixed bytes.
pub fn byte_len_prefixed(body: Option<&[u8]>) -> (n: usize)
    requires
        wire_prefixed(body.deep_view()).len() <= usize::MAX,
    ensures
        n == wire_prefixed(body.deep_view()).len(),
{
    proof {
        lemma_auto_spec_u32_to_from_le_bytes();
    }
    match body {
        None => 4,
        Some(b) => {
            assert(b.deep_view() =~= b@);
            4 + b.len()
        },
    }
}

/// Appends length-prefixed bytes to `stream` and returns the length of what
/// it wrote; fails, writing nothing, where the length does not fit the prefix.
pub fn write_prefixed(stream: &mut Vec<u8>, body: Option<&[u8]>) -> (r: Result<usize, EncodingError>)
    ensures
        match body {
            Some(b) if b@.len() > i32::MAX => r == Err::<usize, EncodingError>(
                EncodingError::InvalidEncoding,
            ) && final(stream)@ == old(stream)@,
            _ => r is Ok && r.unwrap() == wire_prefixed(body.deep_view()).len() && final(stream)@
                == old(stream)@ + wire_prefixed(body.deep_view()),
        },
{
    proof {
        lemma_auto_spec_u32_to_from_le_bytes();
    }
    match body {
        None => {
            let minus_one: i32 = -1;
            minus_one.encode(stream)
        },
        Some(b) => {
            assert(b.deep_view() =~= b@);
            if b.len() > 2147483647 {
                return Err(EncodingError::InvalidEncoding);
            }
            let len: i32 = b.len() as i32;
            let n = len.encode(stream)?;
            stream.extend_from_slice(b);
            proof {
                lemma_concat_assoc(old(stream)@, i32::wire(len), b@);
                lemma_vec_len_bound(stream);
            }
            Ok(n + b.len())
        },
    }
}

/// Reads length-prefixed bytes from `stream`, accepting at most `max` of them.
pub fn read_prefixed(stream: &mut Reader, max: usize) -> (r: Result<Option<Vec<u8>>, EncodingError>)
    ensures
        match parse_prefixed(old(stream)@, max) {
            Ok((v, n)) => r is Ok && r.unwrap().deep_view() == v && final(stream)@ == old(stream)@.skip(n as int),
            Err(e) => r == Err::<Option<Vec<u8>>, EncodingError>(e),
        },
{
    let limits = DecodingLimits { max_string_length: 0, max_byte_string_length: 0, max_array_length: 0 };
    let len = i32::decode(stream, &limits)?;
    if len == -1 {
        return Ok(None);
    }
    if len < -1 {
        return Err(EncodingError::InvalidEncoding);
    }
    if len as usize > max {
        return Err(EncodingError::DecodedLengthExceedsLimit);
    }
    let taken = stream.take(len as usize)?;
    let body = slice_to_vec(taken);
    proof {
        assert(body.deep_view() =~= body@);
        assert(old(stream)@.skip(4).take(len as int) =~= old(stream)@.subrange(4, 4 + len));
        lemma_skip_skip(old(stream)@, 4, len as int);
    }
    Ok(Some(body))
}


/// Behind a leading byte, decoding an encoded value gives it back.
pub proof fn lemma_tagged_parse_wire<T: BinaryEncoder>(
    tag: u8,
    v: T::V,
    rest: Seq<u8>,
    limits: DecodingLimits,
)
    requires
        T::encodable(v),
        T::within(v, limits),
    ensures
        (seq![tag] + T::wire(v) + rest).len() >= 1,
        (seq![tag] + T::wire(v) + rest)[0] == tag,
        T::parse((seq![tag] + T::wire(v) + rest).skip(1), limits) == Ok::<(T::V, nat), EncodingError>(
            (v, T::wire(v).len()),
        ),
{
    assert((seq![tag] + T::wire(v) + rest).skip(1) =~= T::wire(v) + rest);
    T::lemma_parse_wire(v, rest, limits);
}

/// Behind a leading byte, decoding a proper prefix of an encoded value fails
/// for want of bytes.
pub proof fn lemma_tagged_parse_truncated<T: BinaryEncoder>(
    tag: u8,
    v: T::V,
    k: int,
    limits: DecodingLimits,
)
    requires
        T::encodable(v),
        T::within(v, limits),
        1 <= k < 1 + T::wire(v).len(),
    ensures
        (seq![tag] + T::wire(v)).take(k).len() >= 1,
        (seq![tag] + T::wire(v)).take(k)[0] == tag,
        T::parse((seq![tag] + T::wire(v)).take(k).skip(1), limits) == Err::<
            (T::V, nat),
            EncodingError,
        >(EncodingError::UnexpectedEof),
{
    assert((seq![tag] + T::wire(v)).take(k).skip(1) =~= T::wire(v).take(k - 1));
    T::lemma_parse_truncated(v, k - 1, limits);
}


/// A field that is written only where it is there.
pub open spec fn wire_optional<T: BinaryEncoder>(v: Option<T::V>) -> Seq<u8> {
    match v {
        None => Seq::empty(),
        Some(x) => T::wire(x),
    }
}

/// What decoding a field makes of `bytes`, where `present` says whether the
/// field is there.
pub open spec fn parse_optional<T: BinaryEncoder>(
    present: bool,
    bytes: Seq<u8>,
    limits: DecodingLimits,
) -> Parsed<Option<T::V>> {
    if present {
        match T::parse(bytes, limits) {
            Err(e) => Err(e),
            Ok((x, n)) => Ok((Some(x), n)),
        }
    } else {
        Ok((None, 0))
    }
}

/// Whether a field that may be missing fits its length prefixes.
pub open spec fn optional_encodable<T: BinaryEncoder>(v: Option<T::V>) -> bool {
    v matches Some(x) ==> T::encodable(x)
}

/// Whether a field that may be missing is within `limits`.
pub open spec fn optional_within<T: BinaryEncoder>(v: Option<T::V>, limits: DecodingLimits) -> bool {
    v matches Some(x) ==> T::within(x, limits)
}

/// Decoding an encoded optional field gives it back.
pub proof fn lemma_optional_parse_wire<T: BinaryEncoder>(
    v: Option<T::V>,
    rest: Seq<u8>,
    limits: DecodingLimits,
)
    requires
        optional_encodable::<T>(v),
        optional_within::<T>(v, limits),
    ensures
        parse_optional::<T>(v is Some, wire_optional::<T>(v) + rest, limits) == Ok::<
            (Option<T::V>, nat),
            EncodingError,
        >((v, wire_optional::<T>(v).len())),
{
    match v {
        None => {},
        Some(x) => {
            T::lemma_parse_wire(x, rest, limits);
        },
    }
}

/// Decoding a proper prefix of an encoded optional field fails for want of
/// bytes.
pub proof fn lemma_optional_parse_truncated<T: BinaryEncoder>(
    v: Option<T::V>,
    k: int,
    limits: DecodingLimits,
)
    requires
        optional_encodable::<T>(v),
        optional_within::<T>(v, limits),
        0 <= k < wire_optional::<T>(v).len(),
    ensures
        parse_optional::<T>(v is Some, wire_optional::<T>(v).take(k), limits) == Err::<
            (Option<T::V>, nat),
            EncodingError,
        >(EncodingError::UnexpectedEof),
{
    match v {
        None => {},
        Some(x) => {
            T::lemma_parse_truncated(x, k, limits);
        },
    }
}

/// Appends an optional field to `stream` and returns the length of what it
/// wrote.
pub fn write_optional<T: BinaryEncoder>(stream: &mut Vec<u8>, value: &Option<T>) -> (r: Result<
    usize,
    EncodingError,
>)
    ensures
        optional_encodable::<T>(value.deep_view()) ==> r is Ok && r.unwrap() == wire_optional::<T>(
            value.deep_view(),
        ).len() && final(stream)@ == old(stream)@ + wire_optional::<T>(value.deep_view()),
        !optional_encodable::<T>(value.deep_view()) ==> r == Err::<usize, EncodingError>(
            EncodingError::InvalidEncoding,
        ) && old(stream)@.is_prefix_of(final(stream)@),
{
    match value {
        None => {
            assert(stream@ + Seq::<u8>::empty() =~= stream@);
            Ok(0)
        },
        Some(x) => x.encode(stream),
    }
}

/// Reads an optional field from `stream`, where `present` says whether it is
/// there.
pub fn read_optional<T: BinaryEncoder>(
    present: bool,
    stream: &mut Reader,
    limits: &DecodingLimits,
) -> (r: Result<Option<T>, EncodingError>)
    ensures
        match parse_optional::<T>(present, old(stream)@, *limits) {
            Ok((v, n)) => r is Ok && r.unwrap().deep_view() == v && final(stream)@ == old(stream)@.skip(n as int),
            Err(e) => r == Err::<Option<T>, EncodingError>(e),
        },
{
    if present {
        let x = T::decode(stream, limits)?;
        Ok(Some(x))
    } else {
        assert(stream@.skip(0) =~= stream@);
        Ok(None)
    }
}

/// The exact length of an optional field.
pub fn byte_len_optional<T: BinaryEncoder>(value: &Option<T>) -> (n: usize)
    requires
        wire_optional::<T>(value.deep_view()).len() <= usize::MAX,
    ensures
        n == wire_optional::<T>(value.deep_view()).len(),
{
    match value {
        None => 0,
        Some(x) => x.byte_len(),
    }
}


/// Appends one field of a record behind the fields already written. `start`
/// is what the sink held before the record, `total` the record's encoding and
/// `tail` that of the fields still to come.
pub(crate) fn put<T: BinaryEncoder>(
    value: &T,
    stream: &mut Vec<u8>,
    size: usize,
    Ghost(start): Ghost<Seq<u8>>,
    Ghost(total): Ghost<Seq<u8>>,
    Ghost(tail): Ghost<Seq<u8>>,
) -> (r: Result<usize, EncodingError>)
    requires
        start.is_prefix_of(old(stream)@),
        size + start.len() == old(stream)@.len(),
        old(stream)@ + (T::wire(value.deep_view()) + tail) == start + total,
    ensures
        T::encodable(value.deep_view()) ==> r is Ok && r.unwrap() + start.len() == final(stream)@.len() && start.is_prefix_of(final(stream)@) && final(stream)@ + tail == start + total,
        !T::encodable(value.deep_view()) ==> r == Err::<usize, EncodingError>(
            EncodingError::InvalidEncoding,
        ) && start.is_prefix_of(final(stream)@),
{
    let written = value.encode(stream)?;
    proof {
        lemma_vec_len_bound(stream);
        lemma_concat_assoc(old(stream)@, T::wire(value.deep_view()), tail);
    }
    Ok(size + written)
}

/// Appends the last field of a record behind the fields already written.
pub(crate) fn put_last<T: BinaryEncoder>(
    value: &T,
    stream: &mut Vec<u8>,
    size: usize,
    Ghost(start): Ghost<Seq<u8>>,
    Ghost(total): Ghost<Seq<u8>>,
) -> (r: Result<usize, EncodingError>)
    requires
        start.is_prefix_of(old(stream)@),
        size + start.len() == old(stream)@.len(),
        old(stream)@ + T::wire(value.deep_view()) == start + total,
    ensures
        T::encodable(value.deep_view()) ==> r is Ok && r.unwrap() == total.len() && final(stream)@
            == start + total,
        !T::encodable(value.deep_view()) ==> r == Err::<usize, EncodingError>(
            EncodingError::InvalidEncoding,
        ) && start.is_prefix_of(final(stream)@),
{
    let written = value.encode(stream)?;
    proof {
        lemma_vec_len_bound(stream);
    }
    Ok(size + written)
}

/// Reads one field of a record behind the fields already read. `start` is
/// what was unread before the record and `taken` the number of bytes that
/// the fields before took.
pub(crate) fn get<T: BinaryEncoder>(
    stream: &mut Reader,
    limits: &DecodingLimits,
    Ghost(start): Ghost<Seq<u8>>,
    Ghost(taken): Ghost<int>,
) -> (r: Result<T, EncodingError>)
    requires
        0 <= taken <= start.len(),
        old(stream)@ == start.skip(taken),
    ensures
        match T::parse(old(stream)@, *limits) {
            Ok((v, n)) => r is Ok && r.unwrap().deep_view() == v && taken + n <= start.len()
                && final(stream)@ == start.skip(taken + n) && final(stream)@ == old(stream)@.skip(
                n as int,
            ),
            Err(e) => r == Err::<T, EncodingError>(e),
        },
{
    proof {
        T::lemma_parse_bound(stream@, *limits);
        if let Ok((v, n)) = T::parse(stream@, *limits) {
            lemma_skip_skip(start, taken, n as int);
        }
    }
    T::decode(stream, limits)
}

/// Reads one optional field of a record behind the fields already read.
pub(crate) fn get_optional<T: BinaryEncoder>(
    present: bool,
    stream: &mut Reader,
    limits: &DecodingLimits,
    Ghost(start): Ghost<Seq<u8>>,
    Ghost(taken): Ghost<int>,
) -> (r: Result<Option<T>, EncodingError>)
    requires
        0 <= taken <= start.len(),
        old(stream)@ == start.skip(taken),
    ensures
        match parse_optional::<T>(present, old(stream)@, *limits) {
            Ok((v, n)) => r is Ok && r.unwrap().deep_view() == v && taken + n <= start.len()
                && final(stream)@ == start.skip(taken + n) && final(stream)@ == old(stream)@.skip(
                n as int,
            ),
            Err(e) => r == Err::<Option<T>, EncodingError>(e),
        },
{
    if present {
        let x = get::<T>(stream, limits, Ghost(start), Ghost(taken))?;
        Ok(Some(x))
    } else {
        assert(stream@.skip(0) =~= stream@);
        Ok(None)
    }
}

/// Appends one optional field of a record behind the fields already written.
pub(crate) fn put_optional<T: BinaryEncoder>(
    value: &Option<T>,
    stream: &mut Vec<u8>,
    size: usize,
    Ghost(start): Ghost<Seq<u8>>,
    Ghost(total): Ghost<Seq<u8>>,
    Ghost(tail): Ghost<Seq<u8>>,
) -> (r: Result<usize, EncodingError>)
    requires
        start.is_prefix_of(old(stream)@),
        size + start.len() == old(stream)@.len(),
        old(stream)@ + (wire_optional::<T>(value.deep_view()) + tail) == start + total,
    ensures
        optional_encodable::<T>(value.deep_view()) ==> r is Ok && r.unwrap() + start.len()
            == final(stream)@.len() && start.is_prefix_of(final(stream)@) && final(stream)@ + tail
            == start + total,
        !optional_encodable::<T>(value.deep_view()) ==> r == Err::<usize, EncodingError>(
            EncodingError::InvalidEncoding,
        ) && start.is_prefix_of(final(stream)@),
{
    match value {
        None => {
            assert(stream@ + (Seq::<u8>::empty() + tail) =~= stream@ + tail);
            Ok(size)
        },
        Some(x) => put(x, stream, size, Ghost(start), Ghost(total), Ghost(tail)),
    }
}


/// Length-prefixed bytes whose prefix announces more than `max` bytes are
/// refused for their length, whatever follows the prefix.
pub proof fn lemma_oversize_prefixed(len: i32, rest: Seq<u8>, max: usize)
    requires
        len > max,
    ensures
        parse_prefixed(i32::wire(len) + rest, max) == Err::<(Option<Seq<u8>>, nat), EncodingError>(
            EncodingError::DecodedLengthExceedsLimit,
        ),
{
    let limits = DecodingLimits { max_string_length: 0, max_byte_string_length: 0, max_array_length: 0 };
    i32::lemma_parse_wire(len, rest, limits);
}

/// An array whose prefix announces more elements than the limit allows is
/// refused for its length, whatever follows the prefix.
pub proof fn lemma_oversize_array<T: BinaryEncoder>(len: i32, rest: Seq<u8>, limits: DecodingLimits)
    requires
        len > limits.max_array_length,
    ensures
        <Option<Vec<T>>>::parse(i32::wire(len) + rest, limits) == Err::<
            (Option<Seq<T::V>>, nat),
            EncodingError,
        >(EncodingError::DecodedLengthExceedsLimit),
{
    i32::lemma_parse_wire(len, rest, limits);
}


/// Whether the flag of value `bit`, a power of two, is set in `mask`.
pub open spec fn has_flag(mask: u8, bit: int) -> bool {
    bit > 0 && (mask as int / bit) % 2 == 1
}

/// Fields of a record that are there or not as a mask says. The mask
/// travels before the fields; each field has a flag in it.
pub trait MaskedFields: Sized {
    /// The values of the fields.
    type V;

    /// The values that these fields hold.
    spec fn value(&self) -> Self::V;

    /// The bytes of the fields that are there.
    spec fn wire(v: Self::V) -> Seq<u8>;

    /// What decoding the fields makes of `bytes`, where `mask` says which
    /// of them are there.
    spec fn parse(mask: u8, bytes: Seq<u8>, limits: DecodingLimits) -> Parsed<Self::V>;

    /// Whether `mask` says of each field what is true of `v`.
    spec fn agrees(mask: u8, v: Self::V) -> bool;

    /// Every length in the fields fits its prefix.
    spec fn encodable(v: Self::V) -> bool;

    /// Every length in the fields is within `limits`.
    spec fn within(v: Self::V, limits: DecodingLimits) -> bool;

    /// Decoding the encoded fields under their mask gives them back.
    proof fn lemma_parse_wire(mask: u8, v: Self::V, rest: Seq<u8>, limits: DecodingLimits)
        requires
            Self::agrees(mask, v),
            Self::encodable(v),
            Self::within(v, limits),
        ensures
            Self::parse(mask, Self::wire(v) + rest, limits) == Ok::<(Self::V, nat), EncodingError>(
                (v, Self::wire(v).len()),
            ),
    ;

    /// What decoding makes of a prefix of the encoded fields and what
    /// follows them: an error for want of bytes where a field is cut, else
    /// the fields.
    proof fn lemma_parse_cut(mask: u8, v: Self::V, tail: Seq<u8>, k: int, limits: DecodingLimits)
        requires
            Self::agrees(mask, v),
            Self::encodable(v),
            Self::within(v, limits),
            0 <= k <= Self::wire(v).len() + tail.len(),
        ensures
            k < Self::wire(v).len() ==> Self::parse(mask, (Self::wire(v) + tail).take(k), limits)
                == Err::<(Self::V, nat), EncodingError>(EncodingError::UnexpectedEof),
            k >= Self::wire(v).len() ==> Self::parse(mask, (Self::wire(v) + tail).take(k), limits)
                == Ok::<(Self::V, nat), EncodingError>((v, Self::wire(v).len())),
    ;

    /// Decoding the fields takes no more bytes than there are.
    proof fn lemma_parse_bound(mask: u8, bytes: Seq<u8>, limits: DecodingLimits)
        ensures
            Self::parse(mask, bytes, limits) matches Ok((_, n)) ==> n <= bytes.len(),
    ;

    /// Reads the fields that `mask` says are there from `stream`.
    fn decode(mask: u8, stream: &mut Reader, limits: &DecodingLimits) -> (r: Result<
        Self,
        EncodingError,
    >)
        ensures
            match Self::parse(mask, old(stream)@, *limits) {
                Ok((v, n)) => r is Ok && r.unwrap().value() == v && final(stream)@ == old(stream)@.skip(n as int) && n <= old(stream)@.len(),
                Err(e) => r == Err::<Self, EncodingError>(e),
            },
    ;
}

/// One field of the type `T` that is there where the flag of value `BIT` is
/// set in the mask.
pub struct Flagged<T, const BIT: u8> {
    pub value: Option<T>,
}

impl<T: BinaryEncoder, const BIT: u8> MaskedFields for Flagged<T, BIT> {
    type V = Option<T::V>;

    open spec fn value(&self) -> Option<T::V> {
        self.value.deep_view()
    }

    open spec fn wire(v: Option<T::V>) -> Seq<u8> {
        wire_optional::<T>(v)
    }

    open spec fn parse(mask: u8, bytes: Seq<u8>, limits: DecodingLimits) -> Parsed<Option<T::V>> {
        parse_optional::<T>(has_flag(mask, BIT as int), bytes, limits)
    }

    open spec fn agrees(mask: u8, v: Option<T::V>) -> bool {
        has_flag(mask, BIT as int) == (v is Some)
    }

    open spec fn encodable(v: Option<T::V>) -> bool {
        optional_encodable::<T>(v)
    }

    open spec fn within(v: Option<T::V>, limits: DecodingLimits) -> bool {
        optional_within::<T>(v, limits)
    }

    proof fn lemma_parse_wire(mask: u8, v: Option<T::V>, rest: Seq<u8>, limits: DecodingLimits) {
        lemma_optional_parse_wire::<T>(v, rest, limits);
    }

    proof fn lemma_parse_cut(
        mask: u8,
        v: Option<T::V>,
        tail: Seq<u8>,
        k: int,
        limits: DecodingLimits,
    ) {
        let w = wire_optional::<T>(v);
        lemma_concat_take(w, tail, k);
        if k < w.len() {
            lemma_optional_parse_truncated::<T>(v, k, limits);
        } else {
            lemma_optional_parse_wire::<T>(v, tail.take(k - w.len()), limits);
        }
    }

    proof fn lemma_parse_bound(mask: u8, bytes: Seq<u8>, limits: DecodingLimits) {
        T::lemma_parse_bound(bytes, limits);
    }

    fn decode(mask: u8, stream: &mut Reader, limits: &DecodingLimits) -> (r: Result<
        Self,
        EncodingError,
    >) {
        proof {
            T::lemma_parse_bound(stream@, *limits);
        }
        let value = read_optional::<T>(BIT > 0 && (mask / BIT) % 2 == 1, stream, limits)?;
        Ok(Flagged { value })
    }
}

/// Fields followed by more fields under the same mask.
impl<A: MaskedFields, B: MaskedFields> MaskedFields for (A, B) {
    type V = (A::V, B::V);

    open spec fn value(&self) -> (A::V, B::V) {
        (self.0.value(), self.1.value())
    }

    open spec fn wire(v: (A::V, B::V)) -> Seq<u8> {
        A::wire(v.0) + B::wire(v.1)
    }

    open spec fn parse(mask: u8, bytes: Seq<u8>, limits: DecodingLimits) -> Parsed<(A::V, B::V)> {
        match A::parse(mask, bytes, limits) {
            Err(e) => Err(e),
            Ok((a, n)) => match B::parse(mask, bytes.skip(n as int), limits) {
                Err(e) => Err(e),
                Ok((b, m)) => Ok(((a, b), n + m)),
            },
        }
    }

    open spec fn agrees(mask: u8, v: (A::V, B::V)) -> bool {
        A::agrees(mask, v.0) && B::agrees(mask, v.1)
    }

    open spec fn encodable(v: (A::V, B::V)) -> bool {
        A::encodable(v.0) && B::encodable(v.1)
    }

    open spec fn within(v: (A::V, B::V), limits: DecodingLimits) -> bool {
        A::within(v.0, limits) && B::within(v.1, limits)
    }

    proof fn lemma_parse_wire(mask: u8, v: (A::V, B::V), rest: Seq<u8>, limits: DecodingLimits) {
        let wa = A::wire(v.0);
        let wb = B::wire(v.1);
        lemma_concat_assoc(wa, wb, rest);
        A::lemma_parse_wire(mask, v.0, wb + rest, limits);
        lemma_concat_split(wa, wb + rest);
        B::lemma_parse_wire(mask, v.1, rest, limits);
    }

    proof fn lemma_parse_cut(
        mask: u8,
        v: (A::V, B::V),
        tail: Seq<u8>,
        k: int,
        limits: DecodingLimits,
    ) {
        let wa = A::wire(v.0);
        let wb = B::wire(v.1);
        lemma_concat_assoc(wa, wb, tail);
        A::lemma_parse_cut(mask, v.0, wb + tail, k, limits);
        if k >= wa.len() {
            lemma_concat_take(wa, wb + tail, k);
            lemma_concat_split(wa, (wb + tail).take(k - wa.len()));
            B::lemma_parse_cut(mask, v.1, tail, k - wa.len(), limits);
        }
    }

    proof fn lemma_parse_bound(mask: u8, bytes: Seq<u8>, limits: DecodingLimits) {
        A::lemma_parse_bound(mask, bytes, limits);
        if let Ok((a, n)) = A::parse(mask, bytes, limits) {
            B::lemma_parse_bound(mask, bytes.skip(n as int), limits);
        }
    }

    fn decode(mask: u8, stream: &mut Reader, limits: &DecodingLimits) -> (r: Result<
        Self,
        EncodingError,
    >) {
        let a = A::decode(mask, stream, limits)?;
        let ghost rest = stream@;
        let b = B::decode(mask, stream, limits)?;
        proof {
            let n = A::parse(mask, old(stream)@, *limits).unwrap().1;
            let m = B::parse(mask, rest, *limits).unwrap().1;
            lemma_skip_skip(old(stream)@, n as int, m as int);
        }
        Ok((a, b))
    }
}

/// The bytes of a record with a mask: the mask, then the fields that are
/// there.
pub open spec fn wire_masked<F: MaskedFields>(mask: u8, v: F::V) -> Seq<u8> {
    seq![mask] + F::wire(v)
}

/// What decoding a record with a mask makes of `bytes`.
pub open spec fn parse_masked<F: MaskedFields>(bytes: Seq<u8>, limits: DecodingLimits) -> Parsed<
    F::V,
> {
    if bytes.len() < 1 {
        Err(EncodingError::UnexpectedEof)
    } else {
        match F::parse(bytes[0], bytes.skip(1), limits) {
            Err(e) => Err(e),
            Ok((v, n)) => Ok((v, 1 + n)),
        }
    }
}

/// Decoding an encoded record with a mask gives it back.
pub proof fn lemma_parse_wire_masked<F: MaskedFields>(
    mask: u8,
    v: F::V,
    rest: Seq<u8>,
    limits: DecodingLimits,
)
    requires
        F::agrees(mask, v),
        F::encodable(v),
        F::within(v, limits),
    ensures
        parse_masked::<F>(wire_masked::<F>(mask, v) + rest, limits) == Ok::<
            (F::V, nat),
            EncodingError,
        >((v, wire_masked::<F>(mask, v).len())),
{
    let bytes = wire_masked::<F>(mask, v) + rest;
    assert(bytes.skip(1) =~= F::wire(v) + rest);
    F::lemma_parse_wire(mask, v, rest, limits);
}

/// Decoding a proper prefix of an encoded record with a mask fails for
/// want of bytes.
pub proof fn lemma_parse_truncated_masked<F: MaskedFields>(
    mask: u8,
    v: F::V,
    k: int,
    limits: DecodingLimits,
)
    requires
        F::agrees(mask, v),
        F::encodable(v),
        F::within(v, limits),
        0 <= k < wire_masked::<F>(mask, v).len(),
    ensures
        parse_masked::<F>(wire_masked::<F>(mask, v).take(k), limits) == Err::<
            (F::V, nat),
            EncodingError,
        >(EncodingError::UnexpectedEof),
{
    if k >= 1 {
        let bytes = wire_masked::<F>(mask, v).take(k);
        assert(bytes.skip(1) =~= (F::wire(v) + Seq::<u8>::empty()).take(k - 1));
        F::lemma_parse_cut(mask, v, Seq::empty(), k - 1, limits);
    }
}

/// Decoding a record with a mask takes no more bytes than there are.
pub proof fn lemma_parse_bound_masked<F: MaskedFields>(bytes: Seq<u8>, limits: DecodingLimits)
    ensures
        parse_masked::<F>(bytes, limits) matches Ok((_, n)) ==> n <= bytes.len(),
{
    if bytes.len() >= 1 {
        F::lemma_parse_bound(bytes[0], bytes.skip(1), limits);
    }
}

} // verus!
