//! Globally unique identifiers: a fixed image of 16 bytes with a canonical
//! hyphenated text form.

use crate::encoding::{BinaryEncoder, DecodingLimits, EncodingError, Parsed, Reader};
use std::str::FromStr;
use vstd::prelude::*;
use vstd::std_specs::cmp::PartialEqSpecImpl;

verus! {

/// The 16 bytes that a text stands for as a UUID, in any of the forms the
/// `uuid` crate reads, or `None` where it reads none.
pub uninterp spec fn uuid_bytes(text: Seq<char>) -> Option<Seq<u8>>;

/// The lower-case hexadecimal digit of a value below 16.
pub open spec fn hex_digit(nibble: u8) -> char {
    if nibble < 10 {
        (0x30 + nibble) as char
    } else {
        (0x61 + nibble - 10) as char
    }
}

/// The byte whose digits stand at position `i` of the hyphenated form, for
/// `i` other than a hyphen's position.
pub open spec fn hyphenated_byte_index(i: int) -> int {
    if i < 8 {
        i / 2
    } else if i < 13 {
        (i - 1) / 2
    } else if i < 18 {
        (i - 2) / 2
    } else if i < 23 {
        (i - 3) / 2
    } else {
        (i - 4) / 2
    }
}

/// Whether position `i` of the hyphenated form holds the high digit of its byte.
pub open spec fn hyphenated_high_digit(i: int) -> bool {
    if i < 8 {
        i % 2 == 0
    } else if i < 13 {
        (i - 1) % 2 == 0
    } else if i < 18 {
        (i - 2) % 2 == 0
    } else if i < 23 {
        (i - 3) % 2 == 0
    } else {
        (i - 4) % 2 == 0
    }
}

/// The canonical text of 16 bytes: 32 lower-case hexadecimal digits in groups
/// of 8, 4, 4, 4 and 12, with hyphens between the groups.
pub open spec fn hyphenated(bytes: Seq<u8>) -> Seq<char> {
    Seq::new(
        36,
        |i: int|
            if i == 8 || i == 13 || i == 18 || i == 23 {
                '-'
            } else if hyphenated_high_digit(i) {
                hex_digit(bytes[hyphenated_byte_index(i)] / 16)
            } else {
                hex_digit(bytes[hyphenated_byte_index(i)] % 16)
            },
    )
}

/// `uuid::Uuid::parse_str`: the bytes of the UUID that the text stands for,
/// or `None` where the crate reports an error.
#[verifier::external_body]
fn uuid_parse(text: &str) -> (r: Option<[u8; 16]>)
    ensures
        match uuid_bytes(text@) {
            Some(bytes) => r matches Some(b) && b@ == bytes,
            None => r is None,
        },
{
    match uuid::Uuid::parse_str(text) {
        Ok(id) => Some(id.into_bytes()),
        Err(_) => None,
    }
}

/// `uuid::Uuid::to_string` of the UUID with the given bytes: the hyphenated
/// lower-case form, which `uuid::Uuid::parse_str` reads back as the same bytes.
#[verifier::external_body]
fn uuid_to_string(bytes: &[u8; 16]) -> (r: String)
    ensures
        r@ == hyphenated(bytes@),
        uuid_bytes(r@) == Some(bytes@),
{
    uuid::Uuid::from_bytes(*bytes).to_string()
}

/// `uuid::Uuid::new_v4`: the bytes of a random UUID, which carry version 4
/// and the RFC variant.
#[verifier::external_body]
fn uuid_new_v4() -> (r: [u8; 16])
    ensures
        r@[6] / 16 == 4,
        r@[8] / 64 == 2,
{
    uuid::Uuid::new_v4().into_bytes()
}

/// A 16 byte value that can be used as a globally unique identifier.
#[derive(Clone, Copy, Debug, Eq, Hash)]
pub struct Guid {
    /// The 16 bytes, in the order of the text form.
    pub bytes: [u8; 16],
}

impl DeepView for Guid {
    type V = Seq<u8>;

    open spec fn deep_view(&self) -> Seq<u8> {
        self.bytes@
    }
}

impl View for Guid {
    type V = Seq<u8>;

    open spec fn view(&self) -> Seq<u8> {
        self.bytes@
    }
}

impl PartialEq for Guid {
    fn eq(&self, other: &Guid) -> (r: bool) {
        let mut i: usize = 0;
        while i < 16
            invariant
                i <= 16,
                forall|j: int| 0 <= j < i ==> self.bytes@[j] == other.bytes@[j],
            decreases 16 - i,
        {
            if self.bytes[i] != other.bytes[i] {
                return false;
            }
            i = i + 1;
        }
        assert(self@ =~= other@);
        true
    }
}

impl PartialEqSpecImpl for Guid {
    open spec fn obeys_eq_spec() -> bool {
        true
    }

    open spec fn eq_spec(&self, other: &Guid) -> bool {
        self@ == other@
    }
}

impl FromStr for Guid {
    type Err = ();

    fn from_str(s: &str) -> (r: Result<Guid, ()>)
        ensures
            match uuid_bytes(s@) {
                Some(bytes) => r matches Ok(g) && g@ == bytes,
                None => r is Err,
            },
    {
        match uuid_parse(s) {
            Some(bytes) => Ok(Guid { bytes }),
            None => Err(()),
        }
    }
}

impl Default for Guid {
    fn default() -> (r: Guid)
        ensures
            r@ == Seq::new(16, |i: int| 0u8),
    {
        Guid::null()
    }
}

impl Guid {
    /// Return a null guid, i.e. 00000000-0000-0000-0000-000000000000
    pub fn null() -> (r: Guid)
        ensures
            r@ == Seq::new(16, |i: int| 0u8),
    {
        let r = Guid { bytes: [0u8; 16] };
        assert(r@ =~= Seq::new(16, |i: int| 0u8));
        r
    }

    /// Creates a random Guid
    pub fn new() -> (r: Guid)
        ensures
            r@[6] / 16 == 4,
            r@[8] / 64 == 2,
    {
        Guid { bytes: uuid_new_v4() }
    }

    /// Whether every byte is zero.
    pub fn is_null(&self) -> (r: bool)
        ensures
            r == (self@ == Seq::new(16, |i: int| 0u8)),
    {
        let mut i: usize = 0;
        while i < 16
            invariant
                i <= 16,
                forall|j: int| 0 <= j < i ==> self.bytes@[j] == 0,
            decreases 16 - i,
        {
            if self.bytes[i] != 0 {
                return false;
            }
            i = i + 1;
        }
        assert(self@ =~= Seq::new(16, |i: int| 0u8));
        true
    }

    /// The canonical hyphenated text.
    pub fn to_string(&self) -> (r: String)
        ensures
            r@ == hyphenated(self@),
            uuid_bytes(r@) == Some(self@),
    {
        uuid_to_string(&self.bytes)
    }
}

/// The bytes of a guid in the order in which they travel: the first field
/// of four bytes and the two fields of two bytes that follow are turned
/// round, the last eight bytes stay as they are. Turning round twice gives
/// the bytes back.
pub open spec fn wire_order(v: Seq<u8>) -> Seq<u8> {
    Seq::new(16, |i: int| v[wire_position(i)])
}

/// The position in a guid of the byte that travels at position `i`, and
/// the other way round.
pub open spec fn wire_position(i: int) -> int {
    if i < 4 {
        3 - i
    } else if i < 6 {
        9 - i
    } else if i < 8 {
        13 - i
    } else {
        i
    }
}

/// Turning the bytes of a guid round twice gives them back.
pub proof fn lemma_wire_order_twice(v: Seq<u8>)
    requires
        v.len() == 16,
    ensures
        wire_order(v).len() == 16,
        wire_order(wire_order(v)) == v,
{
    assert(wire_order(wire_order(v)) =~= v);
}

/// The bytes of `bytes` in the order in which they travel.
fn in_wire_order(bytes: &[u8]) -> (r: [u8; 16])
    requires
        bytes@.len() == 16,
    ensures
        r@ == wire_order(bytes@),
{
    let r = [
        bytes[3],
        bytes[2],
        bytes[1],
        bytes[0],
        bytes[5],
        bytes[4],
        bytes[7],
        bytes[6],
        bytes[8],
        bytes[9],
        bytes[10],
        bytes[11],
        bytes[12],
        bytes[13],
        bytes[14],
        bytes[15],
    ];
    assert(r@ =~= wire_order(bytes@));
    r
}

/// A guid travels as 16 bytes: its first three fields with the low byte
/// first, its last eight bytes as they are written.
impl BinaryEncoder for Guid {
    open spec fn wire(v: Seq<u8>) -> Seq<u8> {
        wire_order(v)
    }

    open spec fn parse(bytes: Seq<u8>, limits: DecodingLimits) -> Parsed<Seq<u8>> {
        if bytes.len() < 16 {
            Err(EncodingError::UnexpectedEof)
        } else {
            Ok((wire_order(bytes.take(16)), 16))
        }
    }

    open spec fn encodable(v: Seq<u8>) -> bool {
        v.len() == 16
    }

    open spec fn within(v: Seq<u8>, limits: DecodingLimits) -> bool {
        true
    }

    proof fn lemma_parse_wire(v: Seq<u8>, rest: Seq<u8>, limits: DecodingLimits) {
        lemma_wire_order_twice(v);
        assert((wire_order(v) + rest).take(16) =~= wire_order(v));
    }

    proof fn lemma_parse_truncated(v: Seq<u8>, k: int, limits: DecodingLimits) {
        lemma_wire_order_twice(v);
    }

    proof fn lemma_parse_bound(bytes: Seq<u8>, limits: DecodingLimits) {
    }

    fn byte_len(&self) -> (n: usize) {
        proof {
            lemma_wire_order_twice(self.bytes@);
        }
        16
    }

    fn encode(&self, stream: &mut Vec<u8>) -> (r: Result<usize, EncodingError>) {
        proof {
            lemma_wire_order_twice(self.bytes@);
        }
        let ordered = in_wire_order(self.bytes.as_slice());
        stream.extend_from_slice(ordered.as_slice());
        Ok(16)
    }

    fn decode(stream: &mut Reader, limits: &DecodingLimits) -> (r: Result<Self, EncodingError>) {
        let taken = stream.take(16)?;
        let bytes = in_wire_order(taken);
        Ok(Guid { bytes })
    }
}

} // verus!
