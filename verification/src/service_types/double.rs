//! Numbers with a fraction, carried as their IEEE-754 bit pattern.

use crate::encoding::{BinaryEncoder, DecodingLimits, EncodingError, Parsed, Reader};
use vstd::prelude::*;

verus! {

/// A double-precision number, held as the 64 bits of its IEEE-754 form.
#[derive(Clone, Copy, Debug, PartialEq, Eq, Hash, Structural)]
pub struct Double {
    /// The bits, as `f64::to_bits` gives them.
    pub bits: u64,
}

impl DeepView for Double {
    type V = Double;

    open spec fn deep_view(&self) -> Double {
        *self
    }
}

impl Double {
    /// The number with the given bits.
    pub fn from_bits(bits: u64) -> (r: Double)
        ensures
            r.bits == bits,
    {
        Double { bits }
    }

    /// The bits of the number.
    pub fn to_bits(&self) -> (r: u64)
        ensures
            r == self.bits,
    {
        self.bits
    }
}

/// A double is its bits as a 64-bit unsigned integer, lowest byte first.
impl BinaryEncoder for Double {
    open spec fn wire(v: Double) -> Seq<u8> {
        u64::wire(v.bits)
    }

    open spec fn parse(bytes: Seq<u8>, limits: DecodingLimits) -> Parsed<Double> {
        match u64::parse(bytes, limits) {
            Err(e) => Err(e),
            Ok((bits, n)) => Ok((Double { bits }, n)),
        }
    }

    open spec fn encodable(v: Double) -> bool {
        true
    }

    open spec fn within(v: Double, limits: DecodingLimits) -> bool {
        true
    }

    proof fn lemma_parse_wire(v: Double, rest: Seq<u8>, limits: DecodingLimits) {
        u64::lemma_parse_wire(v.bits, rest, limits);
    }

    proof fn lemma_parse_truncated(v: Double, k: int, limits: DecodingLimits) {
        u64::lemma_parse_truncated(v.bits, k, limits);
    }

    proof fn lemma_parse_bound(bytes: Seq<u8>, limits: DecodingLimits) {
    }

    fn byte_len(&self) -> (n: usize) {
        self.bits.byte_len()
    }

    fn encode(&self, stream: &mut Vec<u8>) -> (r: Result<usize, EncodingError>) {
        self.bits.encode(stream)
    }

    fn decode(stream: &mut Reader, limits: &DecodingLimits) -> (r: Result<Self, EncodingError>) {
        let bits = u64::decode(stream, limits)?;
        Ok(Double { bits })
    }
}

/// A single-precision number, held as the 32 bits of its IEEE-754 form.
#[derive(Clone, Copy, Debug, PartialEq, Eq, Hash, Structural)]
pub struct Float {
    /// The bits, as `f32::to_bits` gives them.
    pub bits: u32,
}

impl DeepView for Float {
    type V = Float;

    open spec fn deep_view(&self) -> Float {
        *self
    }
}

impl Float {
    /// The number with the given bits.
    pub fn from_bits(bits: u32) -> (r: Float)
        ensures
            r.bits == bits,
    {
        Float { bits }
    }

    /// The bits of the number.
    pub fn to_bits(&self) -> (r: u32)
        ensures
            r == self.bits,
    {
        self.bits
    }
}

/// A float is its bits as a 32-bit unsigned integer, lowest byte first.
impl BinaryEncoder for Float {
    open spec fn wire(v: Float) -> Seq<u8> {
        u32::wire(v.bits)
    }

    open spec fn parse(bytes: Seq<u8>, limits: DecodingLimits) -> Parsed<Float> {
        match u32::parse(bytes, limits) {
            Err(e) => Err(e),
            Ok((bits, n)) => Ok((Float { bits }, n)),
        }
    }

    open spec fn encodable(v: Float) -> bool {
        true
    }

    open spec fn within(v: Float, limits: DecodingLimits) -> bool {
        true
    }

    proof fn lemma_parse_wire(v: Float, rest: Seq<u8>, limits: DecodingLimits) {
        u32::lemma_parse_wire(v.bits, rest, limits);
    }

    proof fn lemma_parse_truncated(v: Float, k: int, limits: DecodingLimits) {
        u32::lemma_parse_truncated(v.bits, k, limits);
    }

    proof fn lemma_parse_bound(bytes: Seq<u8>, limits: DecodingLimits) {
    }

    fn byte_len(&self) -> (n: usize) {
        self.bits.byte_len()
    }

    fn encode(&self, stream: &mut Vec<u8>) -> (r: Result<usize, EncodingError>) {
        self.bits.encode(stream)
    }

    fn decode(stream: &mut Reader, limits: &DecodingLimits) -> (r: Result<Self, EncodingError>) {
        let bits = u32::decode(stream, limits)?;
        Ok(Float { bits })
    }
}

} // verus!
