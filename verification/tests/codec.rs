use opcua_server::basic_types::{ExtensionObject, ExtensionObjectEncoding, QualifiedName};
use opcua_server::byte_string::ByteString;
use opcua_server::date_time::DateTime;
use opcua_server::diagnostic_info::DiagnosticInfo;
use opcua_server::encoding::{
    byte_len_array, read_array, write_array, BinaryEncoder, DecodingLimits, EncodingError, Reader,
    DEFAULT_MAX_LENGTH,
};
use opcua_server::guid::Guid;
use opcua_server::node_id::NodeId;
use opcua_server::status_codes::{StatusCode, BAD_NODE_ID_UNKNOWN};
use opcua_server::string::UAString;
use std::str::FromStr;

fn encoded<T: BinaryEncoder>(value: &T) -> Vec<u8> {
    let mut stream = Vec::new();
    let size = value.encode(&mut stream).unwrap();
    assert_eq!(size, stream.len());
    assert_eq!(value.byte_len(), stream.len());
    stream
}

fn decoded<T: BinaryEncoder>(bytes: &[u8]) -> Result<T, EncodingError> {
    let limits = DecodingLimits::default();
    let mut reader = Reader::new(bytes);
    T::decode(&mut reader, &limits)
}

/// Encodes, checks the length, decodes again, and checks that every proper
/// prefix fails for want of bytes.
fn round_trip<T: BinaryEncoder + PartialEq + std::fmt::Debug>(value: T) -> Vec<u8> {
    let bytes = encoded(&value);
    assert_eq!(decoded::<T>(&bytes), Ok(value));
    for cut in 0..bytes.len() {
        assert_eq!(decoded::<T>(&bytes[..cut]), Err(EncodingError::UnexpectedEof));
    }
    bytes
}

#[test]
fn default_limits_are_64_kib() {
    let limits = DecodingLimits::default();
    assert_eq!(DEFAULT_MAX_LENGTH, 65536);
    assert_eq!(limits.max_string_length, 65536);
    assert_eq!(limits.max_byte_string_length, 65536);
    assert_eq!(limits.max_array_length, 65536);
}

#[test]
fn boolean_is_one_byte() {
    assert_eq!(round_trip(true), vec![1]);
    assert_eq!(round_trip(false), vec![0]);
    assert_eq!(decoded::<bool>(&[2]), Ok(false));
}

#[test]
fn integers_are_little_endian() {
    assert_eq!(round_trip(0x12u8), vec![0x12]);
    assert_eq!(round_trip(0x1234u16), vec![0x34, 0x12]);
    assert_eq!(round_trip(0x12345678u32), vec![0x78, 0x56, 0x34, 0x12]);
    assert_eq!(
        round_trip(0x0102030405060708u64),
        vec![0x08, 0x07, 0x06, 0x05, 0x04, 0x03, 0x02, 0x01]
    );
    assert_eq!(round_trip(-2i32), vec![0xfe, 0xff, 0xff, 0xff]);
    assert_eq!(round_trip(i32::MIN), vec![0x00, 0x00, 0x00, 0x80]);
    assert_eq!(round_trip(-1i64), vec![0xff; 8]);
    assert_eq!(round_trip(i64::MAX), vec![0xff, 0xff, 0xff, 0xff, 0xff, 0xff, 0xff, 0x7f]);
}

#[test]
fn reader_goes_on_behind_a_value() {
    let bytes = [1u8, 0, 0, 0, 2, 0];
    let limits = DecodingLimits::default();
    let mut reader = Reader::new(&bytes);
    assert_eq!(reader.remaining(), 6);
    assert_eq!(u32::decode(&mut reader, &limits), Ok(1));
    assert_eq!(reader.remaining(), 2);
    assert_eq!(u16::decode(&mut reader, &limits), Ok(2));
    assert_eq!(reader.remaining(), 0);
    assert_eq!(u8::decode(&mut reader, &limits), Err(EncodingError::UnexpectedEof));
}

#[test]
fn string_is_length_then_utf8() {
    assert_eq!(round_trip(UAString::from("abc")), vec![3, 0, 0, 0, 97, 98, 99]);
    assert_eq!(round_trip(UAString::null()), vec![0xff, 0xff, 0xff, 0xff]);
    assert_eq!(round_trip(UAString::from("")), vec![0, 0, 0, 0]);
    // two bytes for the e with an accent
    assert_eq!(round_trip(UAString::from("\u{e9}")), vec![2, 0, 0, 0, 0xc3, 0xa9]);
}

#[test]
fn string_that_is_not_utf8_is_invalid() {
    assert_eq!(decoded::<UAString>(&[1, 0, 0, 0, 0xff]), Err(EncodingError::InvalidEncoding));
    assert_eq!(decoded::<UAString>(&[2, 0, 0, 0, 0xc3, 0x28]), Err(EncodingError::InvalidEncoding));
}

#[test]
fn length_below_minus_one_is_invalid() {
    assert_eq!(decoded::<UAString>(&[0xfe, 0xff, 0xff, 0xff]), Err(EncodingError::InvalidEncoding));
    assert_eq!(
        decoded::<ByteString>(&[0xfe, 0xff, 0xff, 0xff]),
        Err(EncodingError::InvalidEncoding)
    );
    assert_eq!(
        decoded::<Option<Vec<u32>>>(&[0x00, 0x00, 0x00, 0x80]),
        Err(EncodingError::InvalidEncoding)
    );
}

#[test]
fn oversize_lengths_exceed_the_limit() {
    // 65537 bytes announced, none there
    let bytes = [0x01, 0x00, 0x01, 0x00];
    assert_eq!(decoded::<UAString>(&bytes), Err(EncodingError::DecodedLengthExceedsLimit));
    assert_eq!(decoded::<ByteString>(&bytes), Err(EncodingError::DecodedLengthExceedsLimit));
    assert_eq!(decoded::<Option<Vec<u8>>>(&bytes), Err(EncodingError::DecodedLengthExceedsLimit));
    // the largest length of all
    let bytes = [0xff, 0xff, 0xff, 0x7f];
    assert_eq!(decoded::<UAString>(&bytes), Err(EncodingError::DecodedLengthExceedsLimit));
    assert_eq!(decoded::<Option<Vec<UAString>>>(&bytes), Err(EncodingError::DecodedLengthExceedsLimit));
    // exactly the limit is accepted, and then the bytes are missing
    let bytes = [0x00, 0x00, 0x01, 0x00];
    assert_eq!(decoded::<UAString>(&bytes), Err(EncodingError::UnexpectedEof));
}

#[test]
fn configured_limits_are_enforced() {
    let limits = DecodingLimits { max_string_length: 2, max_byte_string_length: 3, max_array_length: 1 };
    let three = [3u8, 0, 0, 0, 97, 98, 99];
    let mut reader = Reader::new(&three);
    assert_eq!(UAString::decode(&mut reader, &limits), Err(EncodingError::DecodedLengthExceedsLimit));
    let mut reader = Reader::new(&three);
    assert_eq!(ByteString::decode(&mut reader, &limits), Ok(ByteString::from(vec![97, 98, 99])));
    let two = [2u8, 0, 0, 0, 1, 2];
    let mut reader = Reader::new(&two);
    assert_eq!(
        <Option<Vec<u8>>>::decode(&mut reader, &limits),
        Err(EncodingError::DecodedLengthExceedsLimit)
    );
    let one = [1u8, 0, 0, 0, 9];
    let mut reader = Reader::new(&one);
    assert_eq!(<Option<Vec<u8>>>::decode(&mut reader, &limits), Ok(Some(vec![9])));
}

#[test]
fn byte_string_is_length_then_bytes() {
    assert_eq!(round_trip(ByteString::from(vec![1, 2, 3])), vec![3, 0, 0, 0, 1, 2, 3]);
    assert_eq!(round_trip(ByteString::null()), vec![0xff, 0xff, 0xff, 0xff]);
    assert_eq!(round_trip(ByteString::from(vec![])), vec![0, 0, 0, 0]);
}

#[test]
fn date_time_is_its_ticks() {
    assert_eq!(round_trip(DateTime::from_ticks(1)), vec![1, 0, 0, 0, 0, 0, 0, 0]);
    assert_eq!(round_trip(DateTime::null()), vec![0; 8]);
    assert_eq!(
        round_trip(DateTime::from_ticks(i64::MAX)),
        vec![0xff, 0xff, 0xff, 0xff, 0xff, 0xff, 0xff, 0x7f]
    );
}

#[test]
fn guid_travels_with_its_first_three_fields_turned_round() {
    let guid = Guid::from_str("72962B91-FA75-4AE6-8D28-B404DC7DAF63").unwrap();
    let bytes = round_trip(guid);
    assert_eq!(
        bytes,
        vec![
            0x91, 0x2b, 0x96, 0x72, 0x75, 0xfa, 0xe6, 0x4a, 0x8d, 0x28, 0xb4, 0x04, 0xdc, 0x7d,
            0xaf, 0x63
        ]
    );
    assert_eq!(round_trip(Guid::null()), vec![0; 16]);
    let read: Guid = decoded(&[1, 2, 3, 4, 5, 6, 7, 8, 9, 10, 11, 12, 13, 14, 15, 16]).unwrap();
    assert_eq!(read.to_string(), "04030201-0605-0807-090a-0b0c0d0e0f10");
    assert_eq!(decoded::<Guid>(&[0; 15]), Err(EncodingError::UnexpectedEof));
}

#[test]
fn status_code_is_its_bits() {
    assert_eq!(round_trip(StatusCode(BAD_NODE_ID_UNKNOWN)), vec![0x00, 0x00, 0x34, 0x80]);
    assert_eq!(round_trip(StatusCode(0x1234_5678)), vec![0x78, 0x56, 0x34, 0x12]);
}

#[test]
fn node_id_takes_the_most_compact_form() {
    assert_eq!(round_trip(NodeId::new_numeric(0, 13)), vec![0, 13]);
    assert_eq!(round_trip(NodeId::new_numeric(0, 255)), vec![0, 255]);
    assert_eq!(round_trip(NodeId::new_numeric(0, 256)), vec![1, 0, 0, 1]);
    assert_eq!(round_trip(NodeId::new_numeric(5, 1025)), vec![1, 5, 1, 4]);
    assert_eq!(round_trip(NodeId::new_numeric(255, 65535)), vec![1, 255, 0xff, 0xff]);
    assert_eq!(round_trip(NodeId::new_numeric(256, 1)), vec![2, 0, 1, 1, 0, 0, 0]);
    assert_eq!(round_trip(NodeId::new_numeric(1, 65536)), vec![2, 1, 0, 0, 0, 1, 0]);
    assert_eq!(round_trip(NodeId::new_string(2, "ab")), vec![3, 2, 0, 2, 0, 0, 0, 97, 98]);
    let guid = Guid::from_str("00010203-0405-0607-0809-0a0b0c0d0e0f").unwrap();
    assert_eq!(
        round_trip(NodeId::new_guid(1, guid)),
        vec![4, 1, 0, 3, 2, 1, 0, 5, 4, 7, 6, 8, 9, 10, 11, 12, 13, 14, 15]
    );
    assert_eq!(
        round_trip(NodeId::new_byte_string(3, ByteString::from(vec![9, 8]))),
        vec![5, 3, 0, 2, 0, 0, 0, 9, 8]
    );
}

#[test]
fn node_id_decoder_accepts_every_form() {
    // a small number in the long numeric form
    assert_eq!(decoded::<NodeId>(&[2, 0, 0, 13, 0, 0, 0]), Ok(NodeId::new_numeric(0, 13)));
    assert_eq!(decoded::<NodeId>(&[1, 0, 13, 0]), Ok(NodeId::new_numeric(0, 13)));
    assert_eq!(decoded::<NodeId>(&[6, 0, 0]), Err(EncodingError::InvalidEncoding));
    assert_eq!(decoded::<NodeId>(&[0x80, 0, 0]), Err(EncodingError::InvalidEncoding));
}

#[test]
fn qualified_name_is_index_then_name() {
    assert_eq!(round_trip(QualifiedName::new(7, "x")), vec![7, 0, 1, 0, 0, 0, 120]);
    assert_eq!(round_trip(QualifiedName::null()), vec![0, 0, 0xff, 0xff, 0xff, 0xff]);
}

#[test]
fn extension_object_is_type_then_body() {
    assert_eq!(round_trip(ExtensionObject::null()), vec![0, 0, 0]);
    let binary = ExtensionObject {
        node_id: NodeId::new_numeric(0, 724),
        body: ExtensionObjectEncoding::ByteString(ByteString::from(vec![1, 2])),
    };
    assert_eq!(round_trip(binary), vec![1, 0, 0xd4, 0x02, 1, 2, 0, 0, 0, 1, 2]);
    let xml = ExtensionObject {
        node_id: NodeId::new_numeric(0, 1),
        body: ExtensionObjectEncoding::XmlElement(UAString::from("<a/>")),
    };
    assert_eq!(round_trip(xml), vec![0, 1, 2, 4, 0, 0, 0, 60, 97, 47, 62]);
    assert_eq!(decoded::<ExtensionObject>(&[0, 0, 3]), Err(EncodingError::InvalidEncoding));
}

#[test]
fn diagnostic_info_is_mask_then_fields() {
    assert_eq!(round_trip(DiagnosticInfo::new()), vec![0]);
    let mut info = DiagnosticInfo::new();
    info.symbolic_id = Some(1);
    info.locale = Some(2);
    assert_eq!(info.encoding_mask(), 0x09);
    assert_eq!(round_trip(info.clone()), vec![0x09, 1, 0, 0, 0, 2, 0, 0, 0]);
    info.namespace_uri = Some(3);
    info.localized_text = Some(4);
    info.additional_info = Some(UAString::from("a"));
    info.inner_status_code = Some(StatusCode(5));
    let mut inner = DiagnosticInfo::new();
    inner.localized_text = Some(-1);
    info.inner_diagnostic_info = Some(Box::new(inner));
    assert_eq!(info.encoding_mask(), 0x7f);
    assert_eq!(
        round_trip(info),
        vec![
            0x7f, 1, 0, 0, 0, 3, 0, 0, 0, 2, 0, 0, 0, 4, 0, 0, 0, 1, 0, 0, 0, 97, 5, 0, 0, 0, 0x04,
            0xff, 0xff, 0xff, 0xff
        ]
    );
}

#[test]
fn diagnostic_info_nests_deeply() {
    let mut info = DiagnosticInfo::new();
    for level in 0..50 {
        let mut outer = DiagnosticInfo::new();
        outer.symbolic_id = Some(level);
        outer.inner_diagnostic_info = Some(Box::new(info));
        info = outer;
    }
    let bytes = round_trip(info);
    assert_eq!(bytes.len(), 50 * 5 + 1);
}

#[test]
fn array_is_length_then_elements() {
    assert_eq!(round_trip::<Option<Vec<u16>>>(None), vec![0xff, 0xff, 0xff, 0xff]);
    assert_eq!(round_trip::<Option<Vec<u16>>>(Some(vec![])), vec![0, 0, 0, 0]);
    assert_eq!(round_trip(Some(vec![1u16, 2])), vec![2, 0, 0, 0, 1, 0, 2, 0]);
    assert_eq!(
        round_trip(Some(vec![UAString::from("a"), UAString::null()])),
        vec![2, 0, 0, 0, 1, 0, 0, 0, 97, 0xff, 0xff, 0xff, 0xff]
    );
}

#[test]
fn array_functions_agree_with_the_codec() {
    let values = Some(vec![StatusCode(1), StatusCode(2)]);
    let mut stream = vec![0xaa];
    assert_eq!(byte_len_array(&values), 12);
    assert_eq!(write_array(&mut stream, &values), Ok(12));
    assert_eq!(stream, vec![0xaa, 2, 0, 0, 0, 1, 0, 0, 0, 2, 0, 0, 0]);
    let limits = DecodingLimits::default();
    let mut reader = Reader::new(&stream[1..]);
    assert_eq!(read_array::<StatusCode>(&mut reader, &limits), Ok(values));
    assert_eq!(reader.remaining(), 0);
}

#[test]
fn encoding_appends_to_the_stream() {
    let mut stream = vec![7u8];
    assert_eq!(UAString::from("z").encode(&mut stream), Ok(5));
    assert_eq!(NodeId::new_numeric(0, 1).encode(&mut stream), Ok(2));
    assert_eq!(stream, vec![7, 1, 0, 0, 0, 122, 0, 1]);
}
