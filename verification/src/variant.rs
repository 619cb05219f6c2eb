//! Variants: a value of any of the scalar types.

use crate::basic_types::{
    ExpandedNodeId, ExpandedNodeIdView, LocalizedText, LocalizedTextView, QualifiedName,
    QualifiedNameView,
};
use crate::byte_string::ByteString;
use crate::date_time::DateTime;
use crate::guid::Guid;
use crate::node_id::{NodeId, NodeIdView};
use crate::encoding::{
    byte_len_optional, get, lemma_concat_assoc, lemma_parse_bound_masked,
    lemma_parse_truncated_masked, lemma_parse_wire_masked, lemma_skip_skip,
    lemma_tagged_parse_truncated, lemma_tagged_parse_wire, lemma_vec_len_bound,
    optional_encodable, optional_within, parse_masked, put_optional, wire_masked, wire_optional,
    BinaryEncoder, DecodingLimits, EncodingError, Flagged, MaskedFields, Parsed, Reader,
};
use crate::service_types::double::{Double, Float};
use crate::status_codes::StatusCode;
use crate::string::{UAString, XmlElement};
use vstd::prelude::*;
use vstd::std_specs::cmp::PartialEqSpecImpl;

verus! {

/// A value of any of the scalar types, or no value. Numbers with a fraction
/// are held as the bits of their IEEE-754 form, and two of them are the
/// same where their bits are.
#[derive(Debug, Eq)]
pub enum Variant {
    /// No value.
    Empty,
    Boolean(bool),
    SByte(i8),
    Byte(u8),
    Int16(i16),
    UInt16(u16),
    Int32(i32),
    UInt32(u32),
    Int64(i64),
    UInt64(u64),
    Float(Float),
    Double(Double),
    String(UAString),
    DateTime(DateTime),
    Guid(Guid),
    ByteString(ByteString),
    XmlElement(XmlElement),
    NodeId(NodeId),
    ExpandedNodeId(ExpandedNodeId),
    StatusCode(StatusCode),
    QualifiedName(QualifiedName),
    LocalizedText(LocalizedText),
}

/// The value that a `Variant` stands for.
pub enum VariantView {
    Empty,
    Boolean(bool),
    SByte(i8),
    Byte(u8),
    Int16(i16),
    UInt16(u16),
    Int32(i32),
    UInt32(u32),
    Int64(i64),
    UInt64(u64),
    Float(Float),
    Double(Double),
    String(Option<Seq<char>>),
    DateTime(DateTime),
    Guid(Seq<u8>),
    ByteString(Option<Seq<u8>>),
    XmlElement(Option<Seq<char>>),
    NodeId(NodeIdView),
    ExpandedNodeId(ExpandedNodeIdView),
    StatusCode(StatusCode),
    QualifiedName(QualifiedNameView),
    LocalizedText(LocalizedTextView),
}

impl DeepView for Variant {
    type V = VariantView;

    open spec fn deep_view(&self) -> VariantView {
        match self {
            Variant::Empty => VariantView::Empty,
            Variant::Boolean(value) => VariantView::Boolean(*value),
            Variant::SByte(value) => VariantView::SByte(*value),
            Variant::Byte(value) => VariantView::Byte(*value),
            Variant::Int16(value) => VariantView::Int16(*value),
            Variant::UInt16(value) => VariantView::UInt16(*value),
            Variant::Int32(value) => VariantView::Int32(*value),
            Variant::UInt32(value) => VariantView::UInt32(*value),
            Variant::Int64(value) => VariantView::Int64(*value),
            Variant::UInt64(value) => VariantView::UInt64(*value),
            Variant::Float(value) => VariantView::Float(*value),
            Variant::Double(value) => VariantView::Double(*value),
            Variant::String(value) => VariantView::String(value@),
            Variant::DateTime(value) => VariantView::DateTime(*value),
            Variant::Guid(value) => VariantView::Guid(value@),
            Variant::ByteString(value) => VariantView::ByteString(value@),
            Variant::XmlElement(value) => VariantView::XmlElement(value@),
            Variant::NodeId(value) => VariantView::NodeId(value@),
            Variant::ExpandedNodeId(value) => VariantView::ExpandedNodeId(value@),
            Variant::StatusCode(value) => VariantView::StatusCode(*value),
            Variant::QualifiedName(value) => VariantView::QualifiedName(value@),
            Variant::LocalizedText(value) => VariantView::LocalizedText(value@),
        }
    }
}

impl View for Variant {
    type V = VariantView;

    open spec fn view(&self) -> VariantView {
        self.deep_view()
    }
}

impl PartialEq for Variant {
    fn eq(&self, other: &Variant) -> (r: bool) {
        match (self, other) {
            (Variant::Empty, Variant::Empty) => true,
            (Variant::Boolean(a), Variant::Boolean(b)) => *a == *b,
            (Variant::SByte(a), Variant::SByte(b)) => *a == *b,
            (Variant::Byte(a), Variant::Byte(b)) => *a == *b,
            (Variant::Int16(a), Variant::Int16(b)) => *a == *b,
            (Variant::UInt16(a), Variant::UInt16(b)) => *a == *b,
            (Variant::Int32(a), Variant::Int32(b)) => *a == *b,
            (Variant::UInt32(a), Variant::UInt32(b)) => *a == *b,
            (Variant::Int64(a), Variant::Int64(b)) => *a == *b,
            (Variant::UInt64(a), Variant::UInt64(b)) => *a == *b,
            (Variant::Float(a), Variant::Float(b)) => *a == *b,
            (Variant::Double(a), Variant::Double(b)) => *a == *b,
            (Variant::String(a), Variant::String(b)) => *a == *b,
            (Variant::DateTime(a), Variant::DateTime(b)) => *a == *b,
            (Variant::Guid(a), Variant::Guid(b)) => *a == *b,
            (Variant::ByteString(a), Variant::ByteString(b)) => *a == *b,
            (Variant::XmlElement(a), Variant::XmlElement(b)) => *a == *b,
            (Variant::NodeId(a), Variant::NodeId(b)) => *a == *b,
            (Variant::ExpandedNodeId(a), Variant::ExpandedNodeId(b)) => *a == *b,
            (Variant::StatusCode(a), Variant::StatusCode(b)) => *a == *b,
            (Variant::QualifiedName(a), Variant::QualifiedName(b)) => *a == *b,
            (Variant::LocalizedText(a), Variant::LocalizedText(b)) => *a == *b,
            _ => false,
        }
    }
}

impl PartialEqSpecImpl for Variant {
    open spec fn obeys_eq_spec() -> bool {
        true
    }

    open spec fn eq_spec(&self, other: &Variant) -> bool {
        self@ == other@
    }
}

impl Clone for Variant {
    fn clone(&self) -> (r: Variant)
        ensures
            r@ == self@,
    {
        match self {
            Variant::Empty => Variant::Empty,
            Variant::Boolean(value) => Variant::Boolean(*value),
            Variant::SByte(value) => Variant::SByte(*value),
            Variant::Byte(value) => Variant::Byte(*value),
            Variant::Int16(value) => Variant::Int16(*value),
            Variant::UInt16(value) => Variant::UInt16(*value),
            Variant::Int32(value) => Variant::Int32(*value),
            Variant::UInt32(value) => Variant::UInt32(*value),
            Variant::Int64(value) => Variant::Int64(*value),
            Variant::UInt64(value) => Variant::UInt64(*value),
            Variant::Float(value) => Variant::Float(*value),
            Variant::Double(value) => Variant::Double(*value),
            Variant::String(value) => Variant::String(value.clone()),
            Variant::DateTime(value) => Variant::DateTime(*value),
            Variant::Guid(value) => Variant::Guid(*value),
            Variant::ByteString(value) => Variant::ByteString(value.clone()),
            Variant::XmlElement(value) => Variant::XmlElement(value.clone()),
            Variant::NodeId(value) => Variant::NodeId(value.clone()),
            Variant::ExpandedNodeId(value) => Variant::ExpandedNodeId(value.clone()),
            Variant::StatusCode(value) => Variant::StatusCode(*value),
            Variant::QualifiedName(value) => Variant::QualifiedName(value.clone()),
            Variant::LocalizedText(value) => Variant::LocalizedText(value.clone()),
        }
    }
}

/// A variant is a byte that names the type of its value, 0 for no value,
/// then the value. Arrays and the types with the numbers 22 to 25 are not
/// supported; other numbers are invalid.
impl BinaryEncoder for Variant {
    open spec fn wire(v: VariantView) -> Seq<u8> {
        match v {
            VariantView::Empty => seq![0u8],
            VariantView::Boolean(value) => seq![1u8] + bool::wire(value),
            VariantView::SByte(value) => seq![2u8] + i8::wire(value),
            VariantView::Byte(value) => seq![3u8] + u8::wire(value),
            VariantView::Int16(value) => seq![4u8] + i16::wire(value),
            VariantView::UInt16(value) => seq![5u8] + u16::wire(value),
            VariantView::Int32(value) => seq![6u8] + i32::wire(value),
            VariantView::UInt32(value) => seq![7u8] + u32::wire(value),
            VariantView::Int64(value) => seq![8u8] + i64::wire(value),
            VariantView::UInt64(value) => seq![9u8] + u64::wire(value),
            VariantView::Float(value) => seq![10u8] + Float::wire(value),
            VariantView::Double(value) => seq![11u8] + Double::wire(value),
            VariantView::String(value) => seq![12u8] + UAString::wire(value),
            VariantView::DateTime(value) => seq![13u8] + DateTime::wire(value),
            VariantView::Guid(value) => seq![14u8] + Guid::wire(value),
            VariantView::ByteString(value) => seq![15u8] + ByteString::wire(value),
            VariantView::XmlElement(value) => seq![16u8] + UAString::wire(value),
            VariantView::NodeId(value) => seq![17u8] + NodeId::wire(value),
            VariantView::ExpandedNodeId(value) => seq![18u8] + ExpandedNodeId::wire(value),
            VariantView::StatusCode(value) => seq![19u8] + StatusCode::wire(value),
            VariantView::QualifiedName(value) => seq![20u8] + QualifiedName::wire(value),
            VariantView::LocalizedText(value) => seq![21u8] + LocalizedText::wire(value),
        }
    }

    open spec fn parse(bytes: Seq<u8>, limits: DecodingLimits) -> Parsed<VariantView> {
        if bytes.len() < 1 {
            Err(EncodingError::UnexpectedEof)
        } else if bytes[0] == 0 {
            Ok((VariantView::Empty, 1))
        } else if bytes[0] == 1 {
            match bool::parse(bytes.skip(1), limits) {
                Err(e) => Err(e),
                Ok((value, n)) => Ok((VariantView::Boolean(value), 1 + n)),
            }
        } else if bytes[0] == 2 {
            match i8::parse(bytes.skip(1), limits) {
                Err(e) => Err(e),
                Ok((value, n)) => Ok((VariantView::SByte(value), 1 + n)),
            }
        } else if bytes[0] == 3 {
            match u8::parse(bytes.skip(1), limits) {
                Err(e) => Err(e),
                Ok((value, n)) => Ok((VariantView::Byte(value), 1 + n)),
            }
        } else if bytes[0] == 4 {
            match i16::parse(bytes.skip(1), limits) {
                Err(e) => Err(e),
                Ok((value, n)) => Ok((VariantView::Int16(value), 1 + n)),
            }
        } else if bytes[0] == 5 {
            match u16::parse(bytes.skip(1), limits) {
                Err(e) => Err(e),
                Ok((value, n)) => Ok((VariantView::UInt16(value), 1 + n)),
            }
        } else if bytes[0] == 6 {
            match i32::parse(bytes.skip(1), limits) {
                Err(e) => Err(e),
                Ok((value, n)) => Ok((VariantView::Int32(value), 1 + n)),
            }
        } else if bytes[0] == 7 {
            match u32::parse(bytes.skip(1), limits) {
                Err(e) => Err(e),
                Ok((value, n)) => Ok((VariantView::UInt32(value), 1 + n)),
            }
        } else if bytes[0] == 8 {
            match i64::parse(bytes.skip(1), limits) {
                Err(e) => Err(e),
                Ok((value, n)) => Ok((VariantView::Int64(value), 1 + n)),
            }
        } else if bytes[0] == 9 {
            match u64::parse(bytes.skip(1), limits) {
                Err(e) => Err(e),
                Ok((value, n)) => Ok((VariantView::UInt64(value), 1 + n)),
            }
        } else if bytes[0] == 10 {
            match Float::parse(bytes.skip(1), limits) {
                Err(e) => Err(e),
                Ok((value, n)) => Ok((VariantView::Float(value), 1 + n)),
            }
        } else if bytes[0] == 11 {
            match Double::parse(bytes.skip(1), limits) {
                Err(e) => Err(e),
                Ok((value, n)) => Ok((VariantView::Double(value), 1 + n)),
            }
        } else if bytes[0] == 12 {
            match UAString::parse(bytes.skip(1), limits) {
                Err(e) => Err(e),
                Ok((value, n)) => Ok((VariantView::String(value), 1 + n)),
            }
        } else if bytes[0] == 13 {
            match DateTime::parse(bytes.skip(1), limits) {
                Err(e) => Err(e),
                Ok((value, n)) => Ok((VariantView::DateTime(value), 1 + n)),
            }
        } else if bytes[0] == 14 {
            match Guid::parse(bytes.skip(1), limits) {
                Err(e) => Err(e),
                Ok((value, n)) => Ok((VariantView::Guid(value), 1 + n)),
            }
        } else if bytes[0] == 15 {
            match ByteString::parse(bytes.skip(1), limits) {
                Err(e) => Err(e),
                Ok((value, n)) => Ok((VariantView::ByteString(value), 1 + n)),
            }
        } else if bytes[0] == 16 {
            match UAString::parse(bytes.skip(1), limits) {
                Err(e) => Err(e),
                Ok((value, n)) => Ok((VariantView::XmlElement(value), 1 + n)),
            }
        } else if bytes[0] == 17 {
            match NodeId::parse(bytes.skip(1), limits) {
                Err(e) => Err(e),
                Ok((value, n)) => Ok((VariantView::NodeId(value), 1 + n)),
            }
        } else if bytes[0] == 18 {
            match ExpandedNodeId::parse(bytes.skip(1), limits) {
                Err(e) => Err(e),
                Ok((value, n)) => Ok((VariantView::ExpandedNodeId(value), 1 + n)),
            }
        } else if bytes[0] == 19 {
            match StatusCode::parse(bytes.skip(1), limits) {
                Err(e) => Err(e),
                Ok((value, n)) => Ok((VariantView::StatusCode(value), 1 + n)),
            }
        } else if bytes[0] == 20 {
            match QualifiedName::parse(bytes.skip(1), limits) {
                Err(e) => Err(e),
                Ok((value, n)) => Ok((VariantView::QualifiedName(value), 1 + n)),
            }
        } else if bytes[0] == 21 {
            match LocalizedText::parse(bytes.skip(1), limits) {
                Err(e) => Err(e),
                Ok((value, n)) => Ok((VariantView::LocalizedText(value), 1 + n)),
            }
        } else if bytes[0] <= 25 || bytes[0] >= 64 {
            Err(EncodingError::UnsupportedEncoding)
        } else {
            Err(EncodingError::InvalidEncoding)
        }
    }

    open spec fn encodable(v: VariantView) -> bool {
        match v {
            VariantView::Empty => true,
            VariantView::Boolean(value) => bool::encodable(value),
            VariantView::SByte(value) => i8::encodable(value),
            VariantView::Byte(value) => u8::encodable(value),
            VariantView::Int16(value) => i16::encodable(value),
            VariantView::UInt16(value) => u16::encodable(value),
            VariantView::Int32(value) => i32::encodable(value),
            VariantView::UInt32(value) => u32::encodable(value),
            VariantView::Int64(value) => i64::encodable(value),
            VariantView::UInt64(value) => u64::encodable(value),
            VariantView::Float(value) => Float::encodable(value),
            VariantView::Double(value) => Double::encodable(value),
            VariantView::String(value) => UAString::encodable(value),
            VariantView::DateTime(value) => DateTime::encodable(value),
            VariantView::Guid(value) => Guid::encodable(value),
            VariantView::ByteString(value) => ByteString::encodable(value),
            VariantView::XmlElement(value) => UAString::encodable(value),
            VariantView::NodeId(value) => NodeId::encodable(value),
            VariantView::ExpandedNodeId(value) => ExpandedNodeId::encodable(value),
            VariantView::StatusCode(value) => StatusCode::encodable(value),
            VariantView::QualifiedName(value) => QualifiedName::encodable(value),
            VariantView::LocalizedText(value) => LocalizedText::encodable(value),
        }
    }

    open spec fn within(v: VariantView, limits: DecodingLimits) -> bool {
        match v {
            VariantView::Empty => true,
            VariantView::Boolean(value) => bool::within(value, limits),
            VariantView::SByte(value) => i8::within(value, limits),
            VariantView::Byte(value) => u8::within(value, limits),
            VariantView::Int16(value) => i16::within(value, limits),
            VariantView::UInt16(value) => u16::within(value, limits),
            VariantView::Int32(value) => i32::within(value, limits),
            VariantView::UInt32(value) => u32::within(value, limits),
            VariantView::Int64(value) => i64::within(value, limits),
            VariantView::UInt64(value) => u64::within(value, limits),
            VariantView::Float(value) => Float::within(value, limits),
            VariantView::Double(value) => Double::within(value, limits),
            VariantView::String(value) => UAString::within(value, limits),
            VariantView::DateTime(value) => DateTime::within(value, limits),
            VariantView::Guid(value) => Guid::within(value, limits),
            VariantView::ByteString(value) => ByteString::within(value, limits),
            VariantView::XmlElement(value) => UAString::within(value, limits),
            VariantView::NodeId(value) => NodeId::within(value, limits),
            VariantView::ExpandedNodeId(value) => ExpandedNodeId::within(value, limits),
            VariantView::StatusCode(value) => StatusCode::within(value, limits),
            VariantView::QualifiedName(value) => QualifiedName::within(value, limits),
            VariantView::LocalizedText(value) => LocalizedText::within(value, limits),
        }
    }

    proof fn lemma_parse_wire(v: VariantView, rest: Seq<u8>, limits: DecodingLimits) {
        match v {
            VariantView::Empty => {},
            VariantView::Boolean(value) => {
                lemma_tagged_parse_wire::<bool>(1, value, rest, limits);
            },
            VariantView::SByte(value) => {
                lemma_tagged_parse_wire::<i8>(2, value, rest, limits);
            },
            VariantView::Byte(value) => {
                lemma_tagged_parse_wire::<u8>(3, value, rest, limits);
            },
            VariantView::Int16(value) => {
                lemma_tagged_parse_wire::<i16>(4, value, rest, limits);
            },
            VariantView::UInt16(value) => {
                lemma_tagged_parse_wire::<u16>(5, value, rest, limits);
            },
            VariantView::Int32(value) => {
                lemma_tagged_parse_wire::<i32>(6, value, rest, limits);
            },
            VariantView::UInt32(value) => {
                lemma_tagged_parse_wire::<u32>(7, value, rest, limits);
            },
            VariantView::Int64(value) => {
                lemma_tagged_parse_wire::<i64>(8, value, rest, limits);
            },
            VariantView::UInt64(value) => {
                lemma_tagged_parse_wire::<u64>(9, value, rest, limits);
            },
            VariantView::Float(value) => {
                lemma_tagged_parse_wire::<Float>(10, value, rest, limits);
            },
            VariantView::Double(value) => {
                lemma_tagged_parse_wire::<Double>(11, value, rest, limits);
            },
            VariantView::String(value) => {
                lemma_tagged_parse_wire::<UAString>(12, value, rest, limits);
            },
            VariantView::DateTime(value) => {
                lemma_tagged_parse_wire::<DateTime>(13, value, rest, limits);
            },
            VariantView::Guid(value) => {
                lemma_tagged_parse_wire::<Guid>(14, value, rest, limits);
            },
            VariantView::ByteString(value) => {
                lemma_tagged_parse_wire::<ByteString>(15, value, rest, limits);
            },
            VariantView::XmlElement(value) => {
                lemma_tagged_parse_wire::<UAString>(16, value, rest, limits);
            },
            VariantView::NodeId(value) => {
                lemma_tagged_parse_wire::<NodeId>(17, value, rest, limits);
            },
            VariantView::ExpandedNodeId(value) => {
                lemma_tagged_parse_wire::<ExpandedNodeId>(18, value, rest, limits);
            },
            VariantView::StatusCode(value) => {
                lemma_tagged_parse_wire::<StatusCode>(19, value, rest, limits);
            },
            VariantView::QualifiedName(value) => {
                lemma_tagged_parse_wire::<QualifiedName>(20, value, rest, limits);
            },
            VariantView::LocalizedText(value) => {
                lemma_tagged_parse_wire::<LocalizedText>(21, value, rest, limits);
            },
        }
    }

    proof fn lemma_parse_truncated(v: VariantView, k: int, limits: DecodingLimits) {
        if k >= 1 {
            match v {
                VariantView::Empty => {},
                VariantView::Boolean(value) => {
                    lemma_tagged_parse_truncated::<bool>(1, value, k, limits);
                },
                VariantView::SByte(value) => {
                    lemma_tagged_parse_truncated::<i8>(2, value, k, limits);
                },
                VariantView::Byte(value) => {
                    lemma_tagged_parse_truncated::<u8>(3, value, k, limits);
                },
                VariantView::Int16(value) => {
                    lemma_tagged_parse_truncated::<i16>(4, value, k, limits);
                },
                VariantView::UInt16(value) => {
                    lemma_tagged_parse_truncated::<u16>(5, value, k, limits);
                },
                VariantView::Int32(value) => {
                    lemma_tagged_parse_truncated::<i32>(6, value, k, limits);
                },
                VariantView::UInt32(value) => {
                    lemma_tagged_parse_truncated::<u32>(7, value, k, limits);
                },
                VariantView::Int64(value) => {
                    lemma_tagged_parse_truncated::<i64>(8, value, k, limits);
                },
                VariantView::UInt64(value) => {
                    lemma_tagged_parse_truncated::<u64>(9, value, k, limits);
                },
                VariantView::Float(value) => {
                    lemma_tagged_parse_truncated::<Float>(10, value, k, limits);
                },
                VariantView::Double(value) => {
                    lemma_tagged_parse_truncated::<Double>(11, value, k, limits);
                },
                VariantView::String(value) => {
                    lemma_tagged_parse_truncated::<UAString>(12, value, k, limits);
                },
                VariantView::DateTime(value) => {
                    lemma_tagged_parse_truncated::<DateTime>(13, value, k, limits);
                },
                VariantView::Guid(value) => {
                    lemma_tagged_parse_truncated::<Guid>(14, value, k, limits);
                },
                VariantView::ByteString(value) => {
                    lemma_tagged_parse_truncated::<ByteString>(15, value, k, limits);
                },
                VariantView::XmlElement(value) => {
                    lemma_tagged_parse_truncated::<UAString>(16, value, k, limits);
                },
                VariantView::NodeId(value) => {
                    lemma_tagged_parse_truncated::<NodeId>(17, value, k, limits);
                },
                VariantView::ExpandedNodeId(value) => {
                    lemma_tagged_parse_truncated::<ExpandedNodeId>(18, value, k, limits);
                },
                VariantView::StatusCode(value) => {
                    lemma_tagged_parse_truncated::<StatusCode>(19, value, k, limits);
                },
                VariantView::QualifiedName(value) => {
                    lemma_tagged_parse_truncated::<QualifiedName>(20, value, k, limits);
                },
                VariantView::LocalizedText(value) => {
                    lemma_tagged_parse_truncated::<LocalizedText>(21, value, k, limits);
                },
            }
        }
    }

    proof fn lemma_parse_bound(bytes: Seq<u8>, limits: DecodingLimits) {
        if bytes.len() >= 1 {
            let body = bytes.skip(1);
            bool::lemma_parse_bound(body, limits);
            i8::lemma_parse_bound(body, limits);
            u8::lemma_parse_bound(body, limits);
            i16::lemma_parse_bound(body, limits);
            u16::lemma_parse_bound(body, limits);
            i32::lemma_parse_bound(body, limits);
            u32::lemma_parse_bound(body, limits);
            i64::lemma_parse_bound(body, limits);
            u64::lemma_parse_bound(body, limits);
            Float::lemma_parse_bound(body, limits);
            Double::lemma_parse_bound(body, limits);
            UAString::lemma_parse_bound(body, limits);
            DateTime::lemma_parse_bound(body, limits);
            Guid::lemma_parse_bound(body, limits);
            ByteString::lemma_parse_bound(body, limits);
            NodeId::lemma_parse_bound(body, limits);
            ExpandedNodeId::lemma_parse_bound(body, limits);
            StatusCode::lemma_parse_bound(body, limits);
            QualifiedName::lemma_parse_bound(body, limits);
            LocalizedText::lemma_parse_bound(body, limits);
        }
    }

    fn byte_len(&self) -> (n: usize) {
        match self {
            Variant::Empty => 1,
            Variant::Boolean(value) => 1 + value.byte_len(),
            Variant::SByte(value) => 1 + value.byte_len(),
            Variant::Byte(value) => 1 + value.byte_len(),
            Variant::Int16(value) => 1 + value.byte_len(),
            Variant::UInt16(value) => 1 + value.byte_len(),
            Variant::Int32(value) => 1 + value.byte_len(),
            Variant::UInt32(value) => 1 + value.byte_len(),
            Variant::Int64(value) => 1 + value.byte_len(),
            Variant::UInt64(value) => 1 + value.byte_len(),
            Variant::Float(value) => 1 + value.byte_len(),
            Variant::Double(value) => 1 + value.byte_len(),
            Variant::String(value) => 1 + value.byte_len(),
            Variant::DateTime(value) => 1 + value.byte_len(),
            Variant::Guid(value) => 1 + value.byte_len(),
            Variant::ByteString(value) => 1 + value.byte_len(),
            Variant::XmlElement(value) => 1 + value.byte_len(),
            Variant::NodeId(value) => 1 + value.byte_len(),
            Variant::ExpandedNodeId(value) => 1 + value.byte_len(),
            Variant::StatusCode(value) => 1 + value.byte_len(),
            Variant::QualifiedName(value) => 1 + value.byte_len(),
            Variant::LocalizedText(value) => 1 + value.byte_len(),
        }
    }

    fn encode(&self, stream: &mut Vec<u8>) -> (r: Result<usize, EncodingError>) {
        let ghost start = stream@;
        stream.push(self.type_id());
        proof {
            assert(stream@ =~= start + seq![self@.type_id()]);
        }
        let size = match self {
            Variant::Empty => 0,
            Variant::Boolean(value) => {
                let written = value.encode(stream)?;
                proof {
                    lemma_concat_assoc(start, seq![1u8], bool::wire(value.deep_view()));
                }
                written
            },
            Variant::SByte(value) => {
                let written = value.encode(stream)?;
                proof {
                    lemma_concat_assoc(start, seq![2u8], i8::wire(value.deep_view()));
                }
                written
            },
            Variant::Byte(value) => {
                let written = value.encode(stream)?;
                proof {
                    lemma_concat_assoc(start, seq![3u8], u8::wire(value.deep_view()));
                }
                written
            },
            Variant::Int16(value) => {
                let written = value.encode(stream)?;
                proof {
                    lemma_concat_assoc(start, seq![4u8], i16::wire(value.deep_view()));
                }
                written
            },
            Variant::UInt16(value) => {
                let written = value.encode(stream)?;
                proof {
                    lemma_concat_assoc(start, seq![5u8], u16::wire(value.deep_view()));
                }
                written
            },
            Variant::Int32(value) => {
                let written = value.encode(stream)?;
                proof {
                    lemma_concat_assoc(start, seq![6u8], i32::wire(value.deep_view()));
                }
                written
            },
            Variant::UInt32(value) => {
                let written = value.encode(stream)?;
                proof {
                    lemma_concat_assoc(start, seq![7u8], u32::wire(value.deep_view()));
                }
                written
            },
            Variant::Int64(value) => {
                let written = value.encode(stream)?;
                proof {
                    lemma_concat_assoc(start, seq![8u8], i64::wire(value.deep_view()));
                }
                written
            },
            Variant::UInt64(value) => {
                let written = value.encode(stream)?;
                proof {
                    lemma_concat_assoc(start, seq![9u8], u64::wire(value.deep_view()));
                }
                written
            },
            Variant::Float(value) => {
                let written = value.encode(stream)?;
                proof {
                    lemma_concat_assoc(start, seq![10u8], Float::wire(value.deep_view()));
                }
                written
            },
            Variant::Double(value) => {
                let written = value.encode(stream)?;
                proof {
                    lemma_concat_assoc(start, seq![11u8], Double::wire(value.deep_view()));
                }
                written
            },
            Variant::String(value) => {
                let written = value.encode(stream)?;
                proof {
                    lemma_concat_assoc(start, seq![12u8], UAString::wire(value.deep_view()));
                }
                written
            },
            Variant::DateTime(value) => {
                let written = value.encode(stream)?;
                proof {
                    lemma_concat_assoc(start, seq![13u8], DateTime::wire(value.deep_view()));
                }
                written
            },
            Variant::Guid(value) => {
                let written = value.encode(stream)?;
                proof {
                    lemma_concat_assoc(start, seq![14u8], Guid::wire(value.deep_view()));
                }
                written
            },
            Variant::ByteString(value) => {
                let written = value.encode(stream)?;
                proof {
                    lemma_concat_assoc(start, seq![15u8], ByteString::wire(value.deep_view()));
                }
                written
            },
            Variant::XmlElement(value) => {
                let written = value.encode(stream)?;
                proof {
                    lemma_concat_assoc(start, seq![16u8], UAString::wire(value.deep_view()));
                }
                written
            },
            Variant::NodeId(value) => {
                let written = value.encode(stream)?;
                proof {
                    lemma_concat_assoc(start, seq![17u8], NodeId::wire(value.deep_view()));
                }
                written
            },
            Variant::ExpandedNodeId(value) => {
                let written = value.encode(stream)?;
                proof {
                    lemma_concat_assoc(start, seq![18u8], ExpandedNodeId::wire(value.deep_view()));
                }
                written
            },
            Variant::StatusCode(value) => {
                let written = value.encode(stream)?;
                proof {
                    lemma_concat_assoc(start, seq![19u8], StatusCode::wire(value.deep_view()));
                }
                written
            },
            Variant::QualifiedName(value) => {
                let written = value.encode(stream)?;
                proof {
                    lemma_concat_assoc(start, seq![20u8], QualifiedName::wire(value.deep_view()));
                }
                written
            },
            Variant::LocalizedText(value) => {
                let written = value.encode(stream)?;
                proof {
                    lemma_concat_assoc(start, seq![21u8], LocalizedText::wire(value.deep_view()));
                }
                written
            },
        };
        proof {
            lemma_vec_len_bound(stream);
        }
        Ok(1 + size)
    }

    fn decode(stream: &mut Reader, limits: &DecodingLimits) -> (r: Result<Self, EncodingError>) {
        let ghost start = stream@;
        let id = u8::decode(stream, limits)?;
        if id == 0 {
            Ok(Variant::Empty)
        } else if id == 1 {
            let value = get::<bool>(stream, limits, Ghost(start), Ghost(1))?;
            Ok(Variant::Boolean(value))
        } else if id == 2 {
            let value = get::<i8>(stream, limits, Ghost(start), Ghost(1))?;
            Ok(Variant::SByte(value))
        } else if id == 3 {
            let value = get::<u8>(stream, limits, Ghost(start), Ghost(1))?;
            Ok(Variant::Byte(value))
        } else if id == 4 {
            let value = get::<i16>(stream, limits, Ghost(start), Ghost(1))?;
            Ok(Variant::Int16(value))
        } else if id == 5 {
            let value = get::<u16>(stream, limits, Ghost(start), Ghost(1))?;
            Ok(Variant::UInt16(value))
        } else if id == 6 {
            let value = get::<i32>(stream, limits, Ghost(start), Ghost(1))?;
            Ok(Variant::Int32(value))
        } else if id == 7 {
            let value = get::<u32>(stream, limits, Ghost(start), Ghost(1))?;
            Ok(Variant::UInt32(value))
        } else if id == 8 {
            let value = get::<i64>(stream, limits, Ghost(start), Ghost(1))?;
            Ok(Variant::Int64(value))
        } else if id == 9 {
            let value = get::<u64>(stream, limits, Ghost(start), Ghost(1))?;
            Ok(Variant::UInt64(value))
        } else if id == 10 {
            let value = get::<Float>(stream, limits, Ghost(start), Ghost(1))?;
            Ok(Variant::Float(value))
        } else if id == 11 {
            let value = get::<Double>(stream, limits, Ghost(start), Ghost(1))?;
            Ok(Variant::Double(value))
        } else if id == 12 {
            let value = get::<UAString>(stream, limits, Ghost(start), Ghost(1))?;
            Ok(Variant::String(value))
        } else if id == 13 {
            let value = get::<DateTime>(stream, limits, Ghost(start), Ghost(1))?;
            Ok(Variant::DateTime(value))
        } else if id == 14 {
            let value = get::<Guid>(stream, limits, Ghost(start), Ghost(1))?;
            Ok(Variant::Guid(value))
        } else if id == 15 {
            let value = get::<ByteString>(stream, limits, Ghost(start), Ghost(1))?;
            Ok(Variant::ByteString(value))
        } else if id == 16 {
            let value = get::<UAString>(stream, limits, Ghost(start), Ghost(1))?;
            Ok(Variant::XmlElement(value))
        } else if id == 17 {
            let value = get::<NodeId>(stream, limits, Ghost(start), Ghost(1))?;
            Ok(Variant::NodeId(value))
        } else if id == 18 {
            let value = get::<ExpandedNodeId>(stream, limits, Ghost(start), Ghost(1))?;
            Ok(Variant::ExpandedNodeId(value))
        } else if id == 19 {
            let value = get::<StatusCode>(stream, limits, Ghost(start), Ghost(1))?;
            Ok(Variant::StatusCode(value))
        } else if id == 20 {
            let value = get::<QualifiedName>(stream, limits, Ghost(start), Ghost(1))?;
            Ok(Variant::QualifiedName(value))
        } else if id == 21 {
            let value = get::<LocalizedText>(stream, limits, Ghost(start), Ghost(1))?;
            Ok(Variant::LocalizedText(value))
        } else if id <= 25 || id >= 64 {
            Err(EncodingError::UnsupportedEncoding)
        } else {
            Err(EncodingError::InvalidEncoding)
        }
    }
}

impl VariantView {
    /// The number that names the type of the value; 0 for no value.
    pub open spec fn type_id(self) -> u8 {
        match self {
            VariantView::Empty => 0,
            VariantView::Boolean(_) => 1,
            VariantView::SByte(_) => 2,
            VariantView::Byte(_) => 3,
            VariantView::Int16(_) => 4,
            VariantView::UInt16(_) => 5,
            VariantView::Int32(_) => 6,
            VariantView::UInt32(_) => 7,
            VariantView::Int64(_) => 8,
            VariantView::UInt64(_) => 9,
            VariantView::Float(_) => 10,
            VariantView::Double(_) => 11,
            VariantView::String(_) => 12,
            VariantView::DateTime(_) => 13,
            VariantView::Guid(_) => 14,
            VariantView::ByteString(_) => 15,
            VariantView::XmlElement(_) => 16,
            VariantView::NodeId(_) => 17,
            VariantView::ExpandedNodeId(_) => 18,
            VariantView::StatusCode(_) => 19,
            VariantView::QualifiedName(_) => 20,
            VariantView::LocalizedText(_) => 21,
        }
    }
}

impl Variant {
    /// The number that names the type of the value; 0 for no value.
    pub fn type_id(&self) -> (r: u8)
        ensures
            r == self@.type_id(),
    {
        match self {
            Variant::Empty => 0,
            Variant::Boolean(_) => 1,
            Variant::SByte(_) => 2,
            Variant::Byte(_) => 3,
            Variant::Int16(_) => 4,
            Variant::UInt16(_) => 5,
            Variant::Int32(_) => 6,
            Variant::UInt32(_) => 7,
            Variant::Int64(_) => 8,
            Variant::UInt64(_) => 9,
            Variant::Float(_) => 10,
            Variant::Double(_) => 11,
            Variant::String(_) => 12,
            Variant::DateTime(_) => 13,
            Variant::Guid(_) => 14,
            Variant::ByteString(_) => 15,
            Variant::XmlElement(_) => 16,
            Variant::NodeId(_) => 17,
            Variant::ExpandedNodeId(_) => 18,
            Variant::StatusCode(_) => 19,
            Variant::QualifiedName(_) => 20,
            Variant::LocalizedText(_) => 21,
        }
    }
}

/// A value with its status and the times at which the source and the server saw it. Each part may be missing.
#[derive(Debug, Eq)]
pub struct DataValue {
    /// The value.
    pub value: Option<Variant>,
    /// The status of the value; good where it is missing.
    pub status: Option<StatusCode>,
    /// When the source saw the value.
    pub source_timestamp: Option<DateTime>,
    /// Tens of picoseconds to add to the time of the source.
    pub source_picoseconds: Option<i16>,
    /// When the server saw the value.
    pub server_timestamp: Option<DateTime>,
    /// Tens of picoseconds to add to the time of the server.
    pub server_picoseconds: Option<i16>,
}

/// The value that a `DataValue` stands for.
pub struct DataValueView {
    pub value: Option<VariantView>,
    pub status: Option<StatusCode>,
    pub source_timestamp: Option<DateTime>,
    pub source_picoseconds: Option<i16>,
    pub server_timestamp: Option<DateTime>,
    pub server_picoseconds: Option<i16>,
}

impl DeepView for DataValue {
    type V = DataValueView;

    open spec fn deep_view(&self) -> DataValueView {
        DataValueView {
            value: self.value.deep_view(),
            status: self.status.deep_view(),
            source_timestamp: self.source_timestamp.deep_view(),
            source_picoseconds: self.source_picoseconds.deep_view(),
            server_timestamp: self.server_timestamp.deep_view(),
            server_picoseconds: self.server_picoseconds.deep_view(),
        }
    }
}

impl View for DataValue {
    type V = DataValueView;

    open spec fn view(&self) -> DataValueView {
        self.deep_view()
    }
}

/// Whether two optional variants are the same.
pub fn same_variant(a: &Option<Variant>, b: &Option<Variant>) -> (r: bool)
    ensures
        r == (a.deep_view() == b.deep_view()),
{
    match (a, b) {
        (None, None) => true,
        (Some(x), Some(y)) => *x == *y,
        _ => false,
    }
}

impl PartialEq for DataValue {
    fn eq(&self, other: &DataValue) -> (r: bool) {
        same_variant(&self.value, &other.value) && self.status == other.status
            && self.source_timestamp == other.source_timestamp && self.source_picoseconds
            == other.source_picoseconds && self.server_timestamp == other.server_timestamp
            && self.server_picoseconds == other.server_picoseconds
    }
}

impl PartialEqSpecImpl for DataValue {
    open spec fn obeys_eq_spec() -> bool {
        true
    }

    open spec fn eq_spec(&self, other: &DataValue) -> bool {
        self@ == other@
    }
}

impl Clone for DataValue {
    fn clone(&self) -> (r: DataValue)
        ensures
            r@ == self@,
    {
        DataValue {
            value: match &self.value {
                None => None,
                Some(value) => Some(value.clone()),
            },
            status: self.status,
            source_timestamp: self.source_timestamp,
            source_picoseconds: self.source_picoseconds,
            server_timestamp: self.server_timestamp,
            server_picoseconds: self.server_picoseconds,
        }
    }
}

impl DataValueView {
    /// The value `value` and nothing else.
    pub open spec fn of(value: VariantView) -> DataValueView {
        DataValueView {
            value: Some(value),
            status: None,
            source_timestamp: None,
            source_picoseconds: None,
            server_timestamp: None,
            server_picoseconds: None,
        }
    }

    /// The status `status` and nothing else.
    pub open spec fn of_status(status: StatusCode) -> DataValueView {
        DataValueView {
            value: None,
            status: Some(status),
            source_timestamp: None,
            source_picoseconds: None,
            server_timestamp: None,
            server_picoseconds: None,
        }
    }
}

impl DataValue {
    /// The value `value` and nothing else.
    pub fn new(value: Variant) -> (r: DataValue)
        ensures
            r@ == DataValueView::of(value@),
    {
        DataValue {
            value: Some(value),
            status: None,
            source_timestamp: None,
            source_picoseconds: None,
            server_timestamp: None,
            server_picoseconds: None,
        }
    }

    /// The status `status` and nothing else.
    pub fn from_status(status: StatusCode) -> (r: DataValue)
        ensures
            r@ == DataValueView::of_status(status),
    {
        DataValue {
            value: None,
            status: Some(status),
            source_timestamp: None,
            source_picoseconds: None,
            server_timestamp: None,
            server_picoseconds: None,
        }
    }
}

/// The fields of a data value in the order in which they travel, each with
/// its flag in the mask.
pub type DataValueFields = (
    Flagged<Variant, 1>,
    (Flagged<StatusCode, 2>, (Flagged<DateTime, 4>, (Flagged<i16, 16>, (Flagged<DateTime, 8>, Flagged<i16, 32>)))),
);

impl DataValueView {
    /// The byte that says which fields are there: 1 for the value, 2 for
    /// the status, 4 and 16 for the time of the source and its
    /// picoseconds, 8 and 32 for the time of the server and its
    /// picoseconds.
    pub open spec fn mask(self) -> u8 {
        ((if self.value is Some { 1int } else { 0 }) + (if self.status is Some { 2int } else { 0 }) + (
        if self.source_timestamp is Some { 4int } else { 0 }) + (if self.server_timestamp is Some { 8int } else { 0 })
            + (if self.source_picoseconds is Some { 16int } else { 0 }) + (
        if self.server_picoseconds is Some { 32int } else { 0 })) as u8
    }

    /// The fields in the order in which they travel.
    pub open spec fn fields(self) -> (
        Option<VariantView>,
        (Option<StatusCode>, (Option<DateTime>, (Option<i16>, (Option<DateTime>, Option<i16>)))),
    ) {
        (
            self.value,
            (
                self.status,
                (
                    self.source_timestamp,
                    (self.source_picoseconds, (self.server_timestamp, self.server_picoseconds)),
                ),
            ),
        )
    }

    /// The value with the given fields.
    pub open spec fn of_fields(
        t: (
            Option<VariantView>,
            (Option<StatusCode>, (Option<DateTime>, (Option<i16>, (Option<DateTime>, Option<i16>)))),
        ),
    ) -> DataValueView {
        DataValueView {
            value: t.0,
            status: t.1.0,
            source_timestamp: t.1.1.0,
            source_picoseconds: t.1.1.1.0,
            server_timestamp: t.1.1.1.1.0,
            server_picoseconds: t.1.1.1.1.1,
        }
    }

    /// Each flag of the mask says whether its field is there.
    pub proof fn lemma_mask(self)
        ensures
            DataValueFields::agrees(self.mask(), self.fields()),
    {
    }
}

/// A data value is a mask that says which fields are there, then those
/// fields: value, status, time of the source and its picoseconds, time of
/// the server and its picoseconds.
impl BinaryEncoder for DataValue {
    open spec fn wire(v: DataValueView) -> Seq<u8> {
        wire_masked::<DataValueFields>(v.mask(), v.fields())
    }

    open spec fn parse(bytes: Seq<u8>, limits: DecodingLimits) -> Parsed<DataValueView> {
        match parse_masked::<DataValueFields>(bytes, limits) {
            Err(e) => Err(e),
            Ok((t, n)) => Ok((DataValueView::of_fields(t), n)),
        }
    }

    open spec fn encodable(v: DataValueView) -> bool {
        optional_encodable::<Variant>(v.value)
    }

    open spec fn within(v: DataValueView, limits: DecodingLimits) -> bool {
        optional_within::<Variant>(v.value, limits)
    }

    proof fn lemma_parse_wire(v: DataValueView, rest: Seq<u8>, limits: DecodingLimits) {
        v.lemma_mask();
        lemma_parse_wire_masked::<DataValueFields>(v.mask(), v.fields(), rest, limits);
    }

    proof fn lemma_parse_truncated(v: DataValueView, k: int, limits: DecodingLimits) {
        v.lemma_mask();
        lemma_parse_truncated_masked::<DataValueFields>(v.mask(), v.fields(), k, limits);
    }

    proof fn lemma_parse_bound(bytes: Seq<u8>, limits: DecodingLimits) {
        lemma_parse_bound_masked::<DataValueFields>(bytes, limits);
    }

    fn byte_len(&self) -> (n: usize) {
        let mut size: usize = 1;
        size = size + byte_len_optional(&self.value);
        size = size + byte_len_optional(&self.status);
        size = size + byte_len_optional(&self.source_timestamp);
        size = size + byte_len_optional(&self.source_picoseconds);
        size = size + byte_len_optional(&self.server_timestamp);
        size = size + byte_len_optional(&self.server_picoseconds);
        size
    }

    fn encode(&self, stream: &mut Vec<u8>) -> (r: Result<usize, EncodingError>) {
        let ghost start = stream@;
        let ghost total = Self::wire(self@);
        let ghost t = self@.fields();
        let ghost t2 = <(Flagged<StatusCode, 2>, (Flagged<DateTime, 4>, (Flagged<i16, 16>, (Flagged<DateTime, 8>, Flagged<i16, 32>))))>::wire(t.1);
        let ghost t3 = <(Flagged<DateTime, 4>, (Flagged<i16, 16>, (Flagged<DateTime, 8>, Flagged<i16, 32>)))>::wire(t.1.1);
        let ghost t4 = <(Flagged<i16, 16>, (Flagged<DateTime, 8>, Flagged<i16, 32>))>::wire(t.1.1.1);
        let ghost t5 = <(Flagged<DateTime, 8>, Flagged<i16, 32>)>::wire(t.1.1.1.1);
        let ghost t6 = wire_optional::<i16>(self@.server_picoseconds);
        stream.push(self.encoding_mask());
        proof {
            assert(stream@ =~= start + seq![self@.mask()]);
            lemma_concat_assoc(start, seq![self@.mask()], DataValueFields::wire(t));
            lemma_vec_len_bound(stream);
        }
        let size: usize = 1;
        let size = put_optional(&self.value, stream, size, Ghost(start), Ghost(total), Ghost(t2))?;
        let size = put_optional(&self.status, stream, size, Ghost(start), Ghost(total), Ghost(t3))?;
        let size = put_optional(&self.source_timestamp, stream, size, Ghost(start), Ghost(total), Ghost(t4))?;
        let size = put_optional(&self.source_picoseconds, stream, size, Ghost(start), Ghost(total), Ghost(t5))?;
        let size = put_optional(&self.server_timestamp, stream, size, Ghost(start), Ghost(total), Ghost(t6))?;
        let size = put_optional(&self.server_picoseconds, stream, size, Ghost(start), Ghost(total), Ghost(Seq::empty()))?;
        proof {
            assert(stream@ + Seq::<u8>::empty() =~= stream@);
        }
        Ok(size)
    }

    fn decode(stream: &mut Reader, limits: &DecodingLimits) -> (r: Result<Self, EncodingError>) {
        let mask = u8::decode(stream, limits)?;
        let ghost unread = stream@;
        let value = DataValue::decode_fields(mask, stream, limits)?;
        proof {
            let n = DataValueFields::parse(mask, unread, *limits).unwrap().1 as int;
            lemma_skip_skip(old(stream)@, 1, n);
        }
        Ok(value)
    }
}

impl DataValue {
    /// Reads the fields that `mask` says are there.
    fn decode_fields(mask: u8, stream: &mut Reader, limits: &DecodingLimits) -> (r: Result<
        DataValue,
        EncodingError,
    >)
        ensures
            match DataValueFields::parse(mask, old(stream)@, *limits) {
                Ok((t, n)) => r is Ok && r.unwrap()@ == DataValueView::of_fields(t)
                    && final(stream)@ == old(stream)@.skip(n as int) && n <= old(stream)@.len(),
                Err(e) => r == Err::<DataValue, EncodingError>(e),
            },
    {
        let fields = DataValueFields::decode(mask, stream, limits)?;
        let (
            value,
            (status, (source_timestamp, (source_picoseconds, (server_timestamp, server_picoseconds)))),
        ) = fields;
        Ok(
            DataValue {
                value: value.value,
                status: status.value,
                source_timestamp: source_timestamp.value,
                source_picoseconds: source_picoseconds.value,
                server_timestamp: server_timestamp.value,
                server_picoseconds: server_picoseconds.value,
            },
        )
    }
}

impl DataValue {
    /// The byte that says which fields are there.
    pub fn encoding_mask(&self) -> (r: u8)
        ensures
            r == self@.mask(),
    {
        let mut mask: u8 = 0;
        if self.value.is_some() {
            mask = mask + 1;
        }
        if self.status.is_some() {
            mask = mask + 2;
        }
        if self.source_timestamp.is_some() {
            mask = mask + 4;
        }
        if self.server_timestamp.is_some() {
            mask = mask + 8;
        }
        if self.source_picoseconds.is_some() {
            mask = mask + 16;
        }
        if self.server_picoseconds.is_some() {
            mask = mask + 32;
        }
        mask
    }
}

} // verus!
