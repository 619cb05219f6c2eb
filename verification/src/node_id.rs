//! Node identifiers: a namespace index and a numeric, string, guid or opaque
//! identifier, with their compact binary forms.

use crate::byte_string::{base64_bytes, base64_text, ByteString};
use crate::encoding::{
    lemma_concat_assoc, lemma_skip_skip, lemma_vec_len_bound, BinaryEncoder, DecodingLimits,
    EncodingError, Parsed, Reader,
};
use crate::guid::{hyphenated, lemma_wire_order_twice, uuid_bytes, Guid};
use crate::status_codes::{StatusCode, BAD_NODE_ID_INVALID};
use std::str::FromStr;
use crate::string::UAString;
use vstd::prelude::*;
use vstd::std_specs::cmp::PartialEqSpecImpl;

verus! {

/// The kind of identifier and its value.
#[derive(Debug, Eq, Hash)]
pub enum Identifier {
    Numeric(u32),
    String(UAString),
    Guid(Guid),
    ByteString(ByteString),
}

/// The value an identifier stands for.
pub enum IdentifierView {
    Numeric(u32),
    String(Option<Seq<char>>),
    Guid(Seq<u8>),
    ByteString(Option<Seq<u8>>),
}

impl DeepView for Identifier {
    type V = IdentifierView;

    open spec fn deep_view(&self) -> IdentifierView {
        match self {
            Identifier::Numeric(value) => IdentifierView::Numeric(*value),
            Identifier::String(value) => IdentifierView::String(value@),
            Identifier::Guid(value) => IdentifierView::Guid(value@),
            Identifier::ByteString(value) => IdentifierView::ByteString(value@),
        }
    }
}

impl View for Identifier {
    type V = IdentifierView;

    open spec fn view(&self) -> IdentifierView {
        self.deep_view()
    }
}

impl PartialEq for Identifier {
    fn eq(&self, other: &Identifier) -> (r: bool) {
        match (self, other) {
            (Identifier::Numeric(a), Identifier::Numeric(b)) => *a == *b,
            (Identifier::String(a), Identifier::String(b)) => *a == *b,
            (Identifier::Guid(a), Identifier::Guid(b)) => *a == *b,
            (Identifier::ByteString(a), Identifier::ByteString(b)) => *a == *b,
            _ => false,
        }
    }
}

impl PartialEqSpecImpl for Identifier {
    open spec fn obeys_eq_spec() -> bool {
        true
    }

    open spec fn eq_spec(&self, other: &Identifier) -> bool {
        self@ == other@
    }
}

impl Clone for Identifier {
    fn clone(&self) -> (r: Identifier)
        ensures
            r@ == self@,
    {
        match self {
            Identifier::Numeric(value) => Identifier::Numeric(*value),
            Identifier::String(value) => Identifier::String(value.clone()),
            Identifier::Guid(value) => Identifier::Guid(*value),
            Identifier::ByteString(value) => Identifier::ByteString(value.clone()),
        }
    }
}

/// An identifier for a node in the address space of a server.
#[derive(Debug, Eq, Hash)]
pub struct NodeId {
    /// The index of the namespace; 0 is the standard namespace.
    pub namespace: u16,
    /// The identifier within the namespace.
    pub identifier: Identifier,
}

/// The value a node id stands for.
pub struct NodeIdView {
    pub namespace: u16,
    pub identifier: IdentifierView,
}

impl DeepView for NodeId {
    type V = NodeIdView;

    open spec fn deep_view(&self) -> NodeIdView {
        NodeIdView { namespace: self.namespace, identifier: self.identifier@ }
    }
}

impl View for NodeId {
    type V = NodeIdView;

    open spec fn view(&self) -> NodeIdView {
        self.deep_view()
    }
}

impl PartialEq for NodeId {
    fn eq(&self, other: &NodeId) -> (r: bool) {
        self.namespace == other.namespace && self.identifier == other.identifier
    }
}

impl PartialEqSpecImpl for NodeId {
    open spec fn obeys_eq_spec() -> bool {
        true
    }

    open spec fn eq_spec(&self, other: &NodeId) -> bool {
        self@ == other@
    }
}

impl Clone for NodeId {
    fn clone(&self) -> (r: NodeId)
        ensures
            r@ == self@,
    {
        NodeId { namespace: self.namespace, identifier: self.identifier.clone() }
    }
}

impl Default for NodeId {
    fn default() -> (r: NodeId)
        ensures
            r@ == NodeIdView::null(),
    {
        NodeId::null()
    }
}

impl NodeIdView {
    /// The null node id: number 0 in namespace 0.
    pub open spec fn null() -> NodeIdView {
        NodeIdView { namespace: 0, identifier: IdentifierView::Numeric(0) }
    }

    /// The numeric node id `value` in `namespace`.
    pub open spec fn numeric(namespace: u16, value: u32) -> NodeIdView {
        NodeIdView { namespace, identifier: IdentifierView::Numeric(value) }
    }

    /// Whether this is the null node id.
    pub open spec fn is_null(&self) -> bool {
        *self == Self::null()
    }
}

impl NodeId {
    /// The null node id: number 0 in namespace 0.
    pub fn null() -> (r: NodeId)
        ensures
            r@ == NodeIdView::null(),
    {
        NodeId { namespace: 0, identifier: Identifier::Numeric(0) }
    }

    /// The numeric node id `value` in `namespace`.
    pub fn new_numeric(namespace: u16, value: u32) -> (r: NodeId)
        ensures
            r@ == NodeIdView::numeric(namespace, value),
    {
        NodeId { namespace, identifier: Identifier::Numeric(value) }
    }

    /// The string node id `value` in `namespace`.
    pub fn new_string(namespace: u16, value: &str) -> (r: NodeId)
        ensures
            r@ == (NodeIdView { namespace, identifier: IdentifierView::String(Some(value@)) }),
    {
        NodeId { namespace, identifier: Identifier::String(UAString::from(value)) }
    }

    /// The guid node id `value` in `namespace`.
    pub fn new_guid(namespace: u16, value: Guid) -> (r: NodeId)
        ensures
            r@ == (NodeIdView { namespace, identifier: IdentifierView::Guid(value@) }),
    {
        NodeId { namespace, identifier: Identifier::Guid(value) }
    }

    /// The opaque node id `value` in `namespace`.
    pub fn new_byte_string(namespace: u16, value: ByteString) -> (r: NodeId)
        ensures
            r@ == (NodeIdView { namespace, identifier: IdentifierView::ByteString(value@) }),
    {
        NodeId { namespace, identifier: Identifier::ByteString(value) }
    }

    /// Whether this is the null node id.
    pub fn is_null(&self) -> (r: bool)
        ensures
            r == self@.is_null(),
    {
        match &self.identifier {
            Identifier::Numeric(value) => self.namespace == 0 && *value == 0,
            _ => false,
        }
    }

    /// Whether the identifier is numeric.
    pub fn is_numeric(&self) -> (r: bool)
        ensures
            r == (self@.identifier is Numeric),
    {
        match &self.identifier {
            Identifier::Numeric(_) => true,
            _ => false,
        }
    }
}


/// The byte that names the form in which a node id travels: 0, a numeric id
/// below 256 in namespace 0, as one byte; 1, a numeric id below 65536 in a
/// namespace below 256, as one byte and two; 2, any other numeric id; 3, 4
/// and 5, a string, guid or opaque id.
pub open spec fn node_id_form(v: NodeIdView) -> u8 {
    match v.identifier {
        IdentifierView::Numeric(value) => if v.namespace == 0 && value <= 255 {
            0
        } else if v.namespace <= 255 && value <= 65535 {
            1
        } else {
            2
        },
        IdentifierView::String(_) => 3,
        IdentifierView::Guid(_) => 4,
        IdentifierView::ByteString(_) => 5,
    }
}

/// The bytes of a node id behind the byte that names its form.
pub open spec fn node_id_body(v: NodeIdView) -> Seq<u8> {
    match v.identifier {
        IdentifierView::Numeric(value) => if v.namespace == 0 && value <= 255 {
            u8::wire(value as u8)
        } else if v.namespace <= 255 && value <= 65535 {
            <(u8, u16)>::wire((v.namespace as u8, value as u16))
        } else {
            <(u16, u32)>::wire((v.namespace, value))
        },
        IdentifierView::String(value) => <(u16, UAString)>::wire((v.namespace, value)),
        IdentifierView::Guid(value) => <(u16, Guid)>::wire((v.namespace, value)),
        IdentifierView::ByteString(value) => <(u16, ByteString)>::wire((v.namespace, value)),
    }
}

/// What decoding makes of the bytes behind the byte `form`. A form above 5
/// is invalid.
pub open spec fn parse_node_id_body(form: u8, bytes: Seq<u8>, limits: DecodingLimits) -> Parsed<
    NodeIdView,
> {
    if form == 0 {
        match u8::parse(bytes, limits) {
            Err(e) => Err(e),
            Ok((value, n)) => Ok((NodeIdView::numeric(0, value as u32), n)),
        }
    } else if form == 1 {
        match <(u8, u16)>::parse(bytes, limits) {
            Err(e) => Err(e),
            Ok(((namespace, value), n)) => Ok(
                (NodeIdView::numeric(namespace as u16, value as u32), n),
            ),
        }
    } else if form == 2 {
        match <(u16, u32)>::parse(bytes, limits) {
            Err(e) => Err(e),
            Ok(((namespace, value), n)) => Ok((NodeIdView::numeric(namespace, value), n)),
        }
    } else if form == 3 {
        match <(u16, UAString)>::parse(bytes, limits) {
            Err(e) => Err(e),
            Ok(((namespace, value), n)) => Ok(
                (NodeIdView { namespace, identifier: IdentifierView::String(value) }, n),
            ),
        }
    } else if form == 4 {
        match <(u16, Guid)>::parse(bytes, limits) {
            Err(e) => Err(e),
            Ok(((namespace, value), n)) => Ok(
                (NodeIdView { namespace, identifier: IdentifierView::Guid(value) }, n),
            ),
        }
    } else if form == 5 {
        match <(u16, ByteString)>::parse(bytes, limits) {
            Err(e) => Err(e),
            Ok(((namespace, value), n)) => Ok(
                (NodeIdView { namespace, identifier: IdentifierView::ByteString(value) }, n),
            ),
        }
    } else {
        Err(EncodingError::InvalidEncoding)
    }
}

/// Behind its form, decoding an encoded node id gives it back.
pub proof fn lemma_node_id_body_parse_wire(v: NodeIdView, rest: Seq<u8>, limits: DecodingLimits)
    requires
        NodeId::encodable(v),
        NodeId::within(v, limits),
    ensures
        parse_node_id_body(node_id_form(v), node_id_body(v) + rest, limits) == Ok::<
            (NodeIdView, nat),
            EncodingError,
        >((v, node_id_body(v).len())),
{
    match v.identifier {
        IdentifierView::Numeric(value) => {
            if v.namespace == 0 && value <= 255 {
                u8::lemma_parse_wire(value as u8, rest, limits);
            } else if v.namespace <= 255 && value <= 65535 {
                <(u8, u16)>::lemma_parse_wire((v.namespace as u8, value as u16), rest, limits);
            } else {
                <(u16, u32)>::lemma_parse_wire((v.namespace, value), rest, limits);
            }
        },
        IdentifierView::String(value) => {
            <(u16, UAString)>::lemma_parse_wire((v.namespace, value), rest, limits);
        },
        IdentifierView::Guid(value) => {
            <(u16, Guid)>::lemma_parse_wire((v.namespace, value), rest, limits);
        },
        IdentifierView::ByteString(value) => {
            <(u16, ByteString)>::lemma_parse_wire((v.namespace, value), rest, limits);
        },
    }
}

/// Behind its form, decoding a proper prefix of an encoded node id fails
/// for want of bytes.
pub proof fn lemma_node_id_body_parse_truncated(v: NodeIdView, k: int, limits: DecodingLimits)
    requires
        NodeId::encodable(v),
        NodeId::within(v, limits),
        0 <= k < node_id_body(v).len(),
    ensures
        parse_node_id_body(node_id_form(v), node_id_body(v).take(k), limits) == Err::<
            (NodeIdView, nat),
            EncodingError,
        >(EncodingError::UnexpectedEof),
{
    match v.identifier {
        IdentifierView::Numeric(value) => {
            if v.namespace == 0 && value <= 255 {
                u8::lemma_parse_truncated(value as u8, k, limits);
            } else if v.namespace <= 255 && value <= 65535 {
                <(u8, u16)>::lemma_parse_truncated((v.namespace as u8, value as u16), k, limits);
            } else {
                <(u16, u32)>::lemma_parse_truncated((v.namespace, value), k, limits);
            }
        },
        IdentifierView::String(value) => {
            <(u16, UAString)>::lemma_parse_truncated((v.namespace, value), k, limits);
        },
        IdentifierView::Guid(value) => {
            <(u16, Guid)>::lemma_parse_truncated((v.namespace, value), k, limits);
        },
        IdentifierView::ByteString(value) => {
            <(u16, ByteString)>::lemma_parse_truncated((v.namespace, value), k, limits);
        },
    }
}

/// Decoding behind the form takes no more bytes than there are.
pub proof fn lemma_node_id_body_parse_bound(form: u8, bytes: Seq<u8>, limits: DecodingLimits)
    ensures
        parse_node_id_body(form, bytes, limits) matches Ok((_, n)) ==> n <= bytes.len(),
{
    <(u8, u16)>::lemma_parse_bound(bytes, limits);
    <(u16, u32)>::lemma_parse_bound(bytes, limits);
    <(u16, UAString)>::lemma_parse_bound(bytes, limits);
    <(u16, Guid)>::lemma_parse_bound(bytes, limits);
    <(u16, ByteString)>::lemma_parse_bound(bytes, limits);
}

impl NodeId {
    /// The byte that names the form in which the node id travels.
    pub fn form(&self) -> (r: u8)
        ensures
            r == node_id_form(self@),
            r <= 5,
    {
        match &self.identifier {
            Identifier::Numeric(value) => {
                if self.namespace == 0 && *value <= 255 {
                    0
                } else if self.namespace <= 255 && *value <= 65535 {
                    1
                } else {
                    2
                }
            },
            Identifier::String(_) => 3,
            Identifier::Guid(_) => 4,
            Identifier::ByteString(_) => 5,
        }
    }

    /// The length of what travels behind the form.
    pub fn body_len(&self) -> (n: usize)
        requires
            node_id_body(self@).len() <= usize::MAX,
        ensures
            n == node_id_body(self@).len(),
    {
        proof {
            vstd::bytes::lemma_auto_spec_u16_to_from_le_bytes();
            vstd::bytes::lemma_auto_spec_u32_to_from_le_bytes();
        }
        match &self.identifier {
            Identifier::Numeric(value) => {
                if self.namespace == 0 && *value <= 255 {
                    1
                } else if self.namespace <= 255 && *value <= 65535 {
                    3
                } else {
                    6
                }
            },
            Identifier::String(value) => 2 + value.byte_len(),
            Identifier::Guid(value) => {
                proof {
                    lemma_wire_order_twice(value@);
                }
                18
            },
            Identifier::ByteString(value) => 2 + value.byte_len(),
        }
    }

    /// Appends what travels behind the form to `stream`.
    pub fn encode_body(&self, stream: &mut Vec<u8>) -> (r: Result<usize, EncodingError>)
        ensures
            NodeId::encodable(self@) ==> r is Ok && r.unwrap() == node_id_body(self@).len()
                && final(stream)@ == old(stream)@ + node_id_body(self@),
            !NodeId::encodable(self@) ==> r == Err::<usize, EncodingError>(
                EncodingError::InvalidEncoding,
            ) && old(stream)@.is_prefix_of(final(stream)@),
    {
        match &self.identifier {
            Identifier::Numeric(value) => {
                if self.namespace == 0 && *value <= 255 {
                    let body = *value as u8;
                    body.encode(stream)
                } else if self.namespace <= 255 && *value <= 65535 {
                    let body = (self.namespace as u8, *value as u16);
                    body.encode(stream)
                } else {
                    let body = (self.namespace, *value);
                    body.encode(stream)
                }
            },
            Identifier::String(value) => {
                let n = self.namespace.encode(stream)?;
                let m = value.encode(stream)?;
                proof {
                    lemma_concat_assoc(
                        old(stream)@,
                        u16::wire(self.namespace),
                        UAString::wire(value@),
                    );
                    lemma_vec_len_bound(stream);
                }
                Ok(n + m)
            },
            Identifier::Guid(value) => {
                let n = self.namespace.encode(stream)?;
                let m = value.encode(stream)?;
                proof {
                    lemma_concat_assoc(old(stream)@, u16::wire(self.namespace), Guid::wire(value@));
                    lemma_vec_len_bound(stream);
                }
                Ok(n + m)
            },
            Identifier::ByteString(value) => {
                let n = self.namespace.encode(stream)?;
                let m = value.encode(stream)?;
                proof {
                    lemma_concat_assoc(
                        old(stream)@,
                        u16::wire(self.namespace),
                        ByteString::wire(value@),
                    );
                    lemma_vec_len_bound(stream);
                }
                Ok(n + m)
            },
        }
    }

    /// Reads what travels behind the byte `form` from `stream`.
    pub fn decode_body(form: u8, stream: &mut Reader, limits: &DecodingLimits) -> (r: Result<
        NodeId,
        EncodingError,
    >)
        ensures
            match parse_node_id_body(form, old(stream)@, *limits) {
                Ok((v, n)) => r is Ok && r.unwrap()@ == v && final(stream)@ == old(stream)@.skip(
                    n as int,
                ),
                Err(e) => r == Err::<NodeId, EncodingError>(e),
            },
    {
        if form == 0 {
            let value = u8::decode(stream, limits)?;
            Ok(NodeId::new_numeric(0, value as u32))
        } else if form == 1 {
            let (namespace, value) = <(u8, u16)>::decode(stream, limits)?;
            Ok(NodeId::new_numeric(namespace as u16, value as u32))
        } else if form == 2 {
            let (namespace, value) = <(u16, u32)>::decode(stream, limits)?;
            Ok(NodeId::new_numeric(namespace, value))
        } else if form == 3 {
            let (namespace, value) = <(u16, UAString)>::decode(stream, limits)?;
            Ok(NodeId { namespace, identifier: Identifier::String(value) })
        } else if form == 4 {
            let (namespace, value) = <(u16, Guid)>::decode(stream, limits)?;
            Ok(NodeId { namespace, identifier: Identifier::Guid(value) })
        } else if form == 5 {
            let (namespace, value) = <(u16, ByteString)>::decode(stream, limits)?;
            Ok(NodeId { namespace, identifier: Identifier::ByteString(value) })
        } else {
            Err(EncodingError::InvalidEncoding)
        }
    }
}

/// A node id is a byte that names its form, then the fields of that form.
impl BinaryEncoder for NodeId {
    open spec fn wire(v: NodeIdView) -> Seq<u8> {
        seq![node_id_form(v)] + node_id_body(v)
    }

    open spec fn parse(bytes: Seq<u8>, limits: DecodingLimits) -> Parsed<NodeIdView> {
        if bytes.len() < 1 {
            Err(EncodingError::UnexpectedEof)
        } else {
            match parse_node_id_body(bytes[0], bytes.skip(1), limits) {
                Err(e) => Err(e),
                Ok((v, n)) => Ok((v, 1 + n)),
            }
        }
    }

    open spec fn encodable(v: NodeIdView) -> bool {
        match v.identifier {
            IdentifierView::Numeric(value) => true,
            IdentifierView::String(value) => UAString::encodable(value),
            IdentifierView::Guid(value) => Guid::encodable(value),
            IdentifierView::ByteString(value) => ByteString::encodable(value),
        }
    }

    open spec fn within(v: NodeIdView, limits: DecodingLimits) -> bool {
        match v.identifier {
            IdentifierView::Numeric(value) => true,
            IdentifierView::String(value) => UAString::within(value, limits),
            IdentifierView::Guid(value) => true,
            IdentifierView::ByteString(value) => ByteString::within(value, limits),
        }
    }

    proof fn lemma_parse_wire(v: NodeIdView, rest: Seq<u8>, limits: DecodingLimits) {
        let bytes = Self::wire(v) + rest;
        assert(bytes.skip(1) =~= node_id_body(v) + rest);
        lemma_node_id_body_parse_wire(v, rest, limits);
    }

    proof fn lemma_parse_truncated(v: NodeIdView, k: int, limits: DecodingLimits) {
        if k >= 1 {
            let bytes = Self::wire(v).take(k);
            assert(bytes.skip(1) =~= node_id_body(v).take(k - 1));
            lemma_node_id_body_parse_truncated(v, k - 1, limits);
        }
    }

    proof fn lemma_parse_bound(bytes: Seq<u8>, limits: DecodingLimits) {
        if bytes.len() >= 1 {
            lemma_node_id_body_parse_bound(bytes[0], bytes.skip(1), limits);
        }
    }

    fn byte_len(&self) -> (n: usize) {
        1 + self.body_len()
    }

    fn encode(&self, stream: &mut Vec<u8>) -> (r: Result<usize, EncodingError>) {
        let ghost start = stream@;
        let form = self.form();
        stream.push(form);
        let size = self.encode_body(stream)?;
        proof {
            assert(start.push(form) =~= start + seq![form]);
            lemma_concat_assoc(start, seq![form], node_id_body(self@));
            lemma_vec_len_bound(stream);
        }
        Ok(1 + size)
    }

    fn decode(stream: &mut Reader, limits: &DecodingLimits) -> (r: Result<Self, EncodingError>) {
        let form = u8::decode(stream, limits)?;
        let ghost body = stream@;
        let id = NodeId::decode_body(form, stream, limits)?;
        proof {
            lemma_node_id_body_parse_bound(form, body, *limits);
            let n = parse_node_id_body(form, body, *limits).unwrap().1;
            lemma_skip_skip(old(stream)@, 1, n as int);
        }
        Ok(id)
    }
}

/// Whether `c` is one of the digits 0 to 9.
pub open spec fn is_digit(c: char) -> bool {
    0x30 <= c as u32 <= 0x39
}

/// The number that a run of decimal digits stands for.
pub open spec fn decimal_value(digits: Seq<char>) -> nat
    decreases digits.len(),
{
    if digits.len() == 0 {
        0
    } else {
        decimal_value(digits.drop_last()) * 10 + (digits.last() as u32 - 0x30) as nat
    }
}

/// The number that `digits` stands for, where it is a run of at least one
/// decimal digit and the number is no larger than `max`.
pub open spec fn parse_decimal(digits: Seq<char>, max: nat) -> Option<nat> {
    if digits.len() > 0 && (forall|i: int| 0 <= i < digits.len() ==> is_digit(#[trigger] digits[i]))
        && decimal_value(digits) <= max {
        Some(decimal_value(digits))
    } else {
        None
    }
}

/// The position after the run of digits that starts at `from`.
pub open spec fn digits_end(text: Seq<char>, from: int) -> int
    decreases text.len() - from,
{
    if 0 <= from < text.len() && is_digit(text[from]) {
        digits_end(text, from + 1)
    } else {
        from
    }
}

/// What `<type>=<value>` stands for in `namespace`: the type is one of the
/// letters i, s, g and b, and the value is not empty.
pub open spec fn parse_identifier(text: Seq<char>, namespace: u16) -> Option<NodeIdView> {
    if text.len() < 3 || text[1] != '=' {
        None
    } else {
        let value = text.skip(2);
        if text[0] == 'i' {
            match parse_decimal(value, u32::MAX as nat) {
                Some(number) => Some(NodeIdView::numeric(namespace, number as u32)),
                None => None,
            }
        } else if text[0] == 's' {
            Some(NodeIdView { namespace, identifier: IdentifierView::String(Some(value)) })
        } else if text[0] == 'g' {
            match uuid_bytes(value) {
                Some(bytes) => Some(NodeIdView { namespace, identifier: IdentifierView::Guid(bytes) }),
                None => None,
            }
        } else if text[0] == 'b' {
            match base64_bytes(value) {
                Some(bytes) => Some(
                    NodeIdView { namespace, identifier: IdentifierView::ByteString(Some(bytes)) },
                ),
                None => None,
            }
        } else {
            None
        }
    }
}

/// What the text form `ns=<n>;<type>=<value>` stands for. The part up to the
/// semicolon may be left out, which means namespace 0; `<n>` is a decimal
/// number below 65536.
pub open spec fn parse_node_id(text: Seq<char>) -> Option<NodeIdView> {
    if text.len() >= 3 && text[0] == 'n' && text[1] == 's' && text[2] == '=' {
        let end = digits_end(text, 3);
        if end < text.len() && text[end] == ';' {
            match parse_decimal(text.subrange(3, end), u16::MAX as nat) {
                Some(namespace) => parse_identifier(text.skip(end + 1), namespace as u16),
                None => None,
            }
        } else {
            None
        }
    } else {
        parse_identifier(text, 0)
    }
}

/// The decimal digit of a value below 10.
pub open spec fn digit_char(d: nat) -> char {
    (0x30 + d) as char
}

/// The decimal text of a number, without leading zeros.
pub open spec fn decimal_text(n: nat) -> Seq<char>
    decreases n,
{
    if n < 10 {
        seq![digit_char(n)]
    } else {
        decimal_text(n / 10).push(digit_char(n % 10))
    }
}

/// The text form of a node id: `ns=<n>;` unless the namespace is 0, then the
/// letter of the identifier's type, `=` and the identifier: a number in
/// decimal, a string as it is, a guid hyphenated, opaque bytes in base64.
pub open spec fn node_id_text(v: NodeIdView) -> Seq<char> {
    let namespace = if v.namespace == 0 {
        Seq::<char>::empty()
    } else {
        seq!['n', 's', '='] + decimal_text(v.namespace as nat) + seq![';']
    };
    namespace + match v.identifier {
        IdentifierView::Numeric(value) => seq!['i', '='] + decimal_text(value as nat),
        IdentifierView::String(value) => seq!['s', '='] + match value {
            Some(text) => text,
            None => Seq::<char>::empty(),
        },
        IdentifierView::Guid(value) => seq!['g', '='] + hyphenated(value),
        IdentifierView::ByteString(value) => seq!['b', '='] + base64_text(
            match value {
                Some(bytes) => bytes,
                None => Seq::<u8>::empty(),
            },
        ),
    }
}

/// The text form of an identifier alone: the letter of its type, `=` and the
/// identifier.
pub open spec fn identifier_text(identifier: IdentifierView) -> Seq<char> {
    node_id_text(NodeIdView { namespace: 0, identifier })
}

/// The part of a text form that names the identifier: what stands behind
/// `ns=<n>;`, or the whole text where it does not begin so.
pub open spec fn identifier_part(text: Seq<char>) -> Seq<char> {
    if text.len() >= 3 && text[0] == 'n' && text[1] == 's' && text[2] == '=' {
        text.skip(digits_end(text, 3) + 1)
    } else {
        text
    }
}

/// A longer run of digits stands for no smaller a number than its start.
pub proof fn lemma_decimal_value_grows(digits: Seq<char>, i: int)
    requires
        0 <= i <= digits.len(),
    ensures
        decimal_value(digits.take(i)) <= decimal_value(digits),
    decreases digits.len() - i,
{
    if i < digits.len() {
        lemma_decimal_value_grows(digits, i + 1);
        assert(digits.take(i + 1).drop_last() =~= digits.take(i));
    } else {
        assert(digits.take(i) =~= digits);
    }
}

/// The number a text stands for in decimal, where it is no larger than `max`.
pub fn parse_decimal_text(digits: &str, max: u32) -> (r: Option<u32>)
    ensures
        match parse_decimal(digits@, max as nat) {
            Some(number) => r == Some(number as u32),
            None => r is None,
        },
{
    let len = digits.unicode_len();
    if len == 0 {
        return None;
    }
    let mut value: u64 = 0;
    let mut i: usize = 0;
    while i < len
        invariant
            i <= len,
            len == digits@.len(),
            forall|j: int| 0 <= j < i ==> is_digit(#[trigger] digits@[j]),
            value == decimal_value(digits@.take(i as int)),
            value <= max,
        decreases len - i,
    {
        let c = digits.get_char(i);
        if !('0' <= c && c <= '9') {
            return None;
        }
        proof {
            assert(digits@.take(i + 1).drop_last() =~= digits@.take(i as int));
            lemma_decimal_value_grows(digits@, i + 1);
        }
        value = value * 10 + (c as u32 - 0x30) as u64;
        if value > max as u64 {
            return None;
        }
        i = i + 1;
    }
    proof {
        assert(digits@.take(len as int) =~= digits@);
    }
    Some(value as u32)
}

/// The text of a single decimal digit.
fn digit_text(d: u32) -> (r: &'static str)
    requires
        d < 10,
    ensures
        r@ == seq![digit_char(d as nat)],
{
    proof {
        reveal_strlit("0");
        reveal_strlit("1");
        reveal_strlit("2");
        reveal_strlit("3");
        reveal_strlit("4");
        reveal_strlit("5");
        reveal_strlit("6");
        reveal_strlit("7");
        reveal_strlit("8");
        reveal_strlit("9");
    }
    let r = if d == 0 {
        "0"
    } else if d == 1 {
        "1"
    } else if d == 2 {
        "2"
    } else if d == 3 {
        "3"
    } else if d == 4 {
        "4"
    } else if d == 5 {
        "5"
    } else if d == 6 {
        "6"
    } else if d == 7 {
        "7"
    } else if d == 8 {
        "8"
    } else {
        "9"
    };
    assert(r@ =~= seq![digit_char(d as nat)]);
    r
}

/// The decimal text of a number.
pub fn decimal_string(n: u32) -> (r: String)
    ensures
        r@ == decimal_text(n as nat),
    decreases n,
{
    if n < 10 {
        digit_text(n).to_owned()
    } else {
        let mut text = decimal_string(n / 10);
        text.append(digit_text(n % 10));
        assert(text@ =~= decimal_text((n / 10) as nat).push(digit_char((n % 10) as nat)));
        text
    }
}

impl FromStr for NodeId {
    type Err = StatusCode;

    /// Reads the text form of a node id; fails with `BAD_NODE_ID_INVALID`
    /// exactly where the text is no such form. A string or opaque identifier
    /// that was read has the text that it was read from.
    fn from_str(s: &str) -> (r: Result<NodeId, StatusCode>)
        ensures
            match parse_node_id(s@) {
                Some(v) => r matches Ok(id) && id@ == v,
                None => r == Err::<NodeId, StatusCode>(StatusCode(BAD_NODE_ID_INVALID)),
            },
            r matches Ok(id) ==> (id@.identifier is String || id@.identifier is ByteString)
                ==> identifier_text(id@.identifier) == identifier_part(s@),
    {
        let len = s.unicode_len();
        if len >= 3 && s.get_char(0) == 'n' && s.get_char(1) == 's' && s.get_char(2) == '=' {
            let mut end: usize = 3;
            while end < len && is_digit_char(s.get_char(end))
                invariant
                    3 <= end <= len,
                    len == s@.len(),
                    digits_end(s@, 3) == digits_end(s@, end as int),
                decreases len - end,
            {
                end = end + 1;
            }
            if end < len && s.get_char(end) == ';' {
                let digits = s.substring_char(3, end);
                match parse_decimal_text(digits, 65535) {
                    Some(namespace) => NodeId::identifier_from_str(
                        s.substring_char(end + 1, len),
                        namespace as u16,
                    ),
                    None => Err(StatusCode(BAD_NODE_ID_INVALID)),
                }
            } else {
                Err(StatusCode(BAD_NODE_ID_INVALID))
            }
        } else {
            NodeId::identifier_from_str(s, 0)
        }
    }
}

/// Whether `c` is one of the digits 0 to 9.
fn is_digit_char(c: char) -> (r: bool)
    ensures
        r == is_digit(c),
{
    '0' <= c && c <= '9'
}

impl NodeId {
    /// Reads `<type>=<value>` as a node id in `namespace`. A string or opaque
    /// identifier that was read has the text that it was read from.
    pub fn identifier_from_str(text: &str, namespace: u16) -> (r: Result<NodeId, StatusCode>)
        ensures
            match parse_identifier(text@, namespace) {
                Some(v) => r matches Ok(id) && id@ == v,
                None => r == Err::<NodeId, StatusCode>(StatusCode(BAD_NODE_ID_INVALID)),
            },
            r matches Ok(id) ==> (id@.identifier is String || id@.identifier is ByteString)
                ==> identifier_text(id@.identifier) == text@,
    {
        let len = text.unicode_len();
        if len < 3 || text.get_char(1) != '=' {
            return Err(StatusCode(BAD_NODE_ID_INVALID));
        }
        let kind = text.get_char(0);
        let value = text.substring_char(2, len);
        assert(value@ =~= text@.skip(2));
        if kind == 'i' {
            match parse_decimal_text(value, 0xFFFF_FFFF) {
                Some(number) => Ok(NodeId::new_numeric(namespace, number)),
                None => Err(StatusCode(BAD_NODE_ID_INVALID)),
            }
        } else if kind == 's' {
            assert(seq!['s', '='] + value@ =~= text@);
            assert(Seq::<char>::empty() + text@ =~= text@);
            Ok(NodeId::new_string(namespace, value))
        } else if kind == 'g' {
            match Guid::from_str(value) {
                Ok(guid) => Ok(NodeId::new_guid(namespace, guid)),
                Err(_) => Err(StatusCode(BAD_NODE_ID_INVALID)),
            }
        } else if kind == 'b' {
            match ByteString::from_base64(value) {
                Some(bytes) => {
                    assert(seq!['b', '='] + value@ =~= text@);
                    assert(Seq::<char>::empty() + text@ =~= text@);
                    Ok(NodeId::new_byte_string(namespace, bytes))
                },
                None => Err(StatusCode(BAD_NODE_ID_INVALID)),
            }
        } else {
            Err(StatusCode(BAD_NODE_ID_INVALID))
        }
    }

    /// The text form of the node id.
    pub fn to_string(&self) -> (r: String)
        requires
            self@.identifier matches IdentifierView::ByteString(Some(bytes)) ==> bytes.len() / 3 * 4
                + 4 <= usize::MAX,
        ensures
            r@ == node_id_text(self@),
    {
        let mut text = String::new();
        if self.namespace != 0 {
            proof {
                reveal_strlit("ns=");
                reveal_strlit(";");
            }
            text.append("ns=");
            let number = decimal_string(self.namespace as u32);
            text.append(number.as_str());
            text.append(";");
            assert(text@ =~= seq!['n', 's', '='] + decimal_text(self.namespace as nat) + seq![';']);
        }
        let ghost namespace = text@;
        match &self.identifier {
            Identifier::Numeric(value) => {
                proof {
                    reveal_strlit("i=");
                }
                text.append("i=");
                let number = decimal_string(*value);
                text.append(number.as_str());
                assert(text@ =~= namespace + (seq!['i', '='] + decimal_text(*value as nat)));
            },
            Identifier::String(value) => {
                proof {
                    reveal_strlit("s=");
                }
                text.append("s=");
                let inner = value.as_ref();
                text.append(inner);
                assert(text@ =~= namespace + (seq!['s', '='] + inner@));
            },
            Identifier::Guid(value) => {
                proof {
                    reveal_strlit("g=");
                }
                text.append("g=");
                let guid = value.to_string();
                text.append(guid.as_str());
                assert(text@ =~= namespace + (seq!['g', '='] + hyphenated(value@)));
            },
            Identifier::ByteString(value) => {
                proof {
                    reveal_strlit("b=");
                }
                text.append("b=");
                let bytes = value.as_base64();
                text.append(bytes.as_str());
                assert(text@ =~= namespace + (seq!['b', '='] + bytes@));
            },
        }
        text
    }
}

} // verus!
