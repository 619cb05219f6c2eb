use opcua_server::basic_types::{ExpandedNodeId, LocalizedText, QualifiedName};
use opcua_server::byte_string::ByteString;
use opcua_server::date_time::DateTime;
use opcua_server::diagnostic_info::DiagnosticInfo;
use opcua_server::encoding::{BinaryEncoder, DecodingLimits, EncodingError, Reader};
use opcua_server::guid::Guid;
use opcua_server::node_id::NodeId;
use opcua_server::service_types::double::{Double, Float};
use opcua_server::service_types::message_info::{MessageInfo, ObjectId};
use opcua_server::service_types::monitored_item_messages::{
    DataChangeNotification, MonitoredItemNotification,
};
use opcua_server::status_codes::StatusCode;
use opcua_server::string::UAString;
use opcua_server::variant::{DataValue, Variant};

fn decoded_from<T: BinaryEncoder>(bytes: &[u8]) -> Result<T, EncodingError> {
    let limits = DecodingLimits::default();
    let mut reader = Reader::new(bytes);
    T::decode(&mut reader, &limits)
}

fn round_trip<T: BinaryEncoder + PartialEq + std::fmt::Debug>(value: T) -> Vec<u8> {
    let mut bytes = Vec::new();
    let size = value.encode(&mut bytes).unwrap();
    assert_eq!(size, bytes.len());
    assert_eq!(value.byte_len(), bytes.len());
    assert_eq!(decoded_from::<T>(&bytes), Ok(value));
    for cut in 0..bytes.len() {
        assert_eq!(decoded_from::<T>(&bytes[..cut]), Err(EncodingError::UnexpectedEof));
    }
    bytes
}

#[test]
fn small_signed_integers() {
    assert_eq!(round_trip(-1i8), vec![0xff]);
    assert_eq!(round_trip(i8::MIN), vec![0x80]);
    assert_eq!(round_trip(5i8), vec![5]);
    assert_eq!(round_trip(-2i16), vec![0xfe, 0xff]);
    assert_eq!(round_trip(i16::MIN), vec![0x00, 0x80]);
    assert_eq!(round_trip(0x1234i16), vec![0x34, 0x12]);
}

#[test]
fn localized_text_is_mask_then_strings() {
    assert_eq!(round_trip(LocalizedText::null()), vec![0]);
    assert_eq!(
        round_trip(LocalizedText::new("en", "hi")),
        vec![3, 2, 0, 0, 0, 101, 110, 2, 0, 0, 0, 104, 105]
    );
    let text_only = LocalizedText { locale: UAString::null(), text: UAString::from("a") };
    assert_eq!(round_trip(text_only), vec![2, 1, 0, 0, 0, 97]);
    let locale_only = LocalizedText { locale: UAString::from(""), text: UAString::null() };
    assert_eq!(round_trip(locale_only), vec![1, 0, 0, 0, 0]);
    // a null string under a set flag is read as null
    assert_eq!(
        decoded_from::<LocalizedText>(&[1, 0xff, 0xff, 0xff, 0xff]),
        Ok(LocalizedText::null())
    );
}

#[test]
fn expanded_node_id_carries_flags_in_the_first_byte() {
    assert_eq!(round_trip(ExpandedNodeId::new(NodeId::new_numeric(0, 13))), vec![0, 13]);
    let with_uri = ExpandedNodeId {
        node_id: NodeId::new_numeric(0, 13),
        namespace_uri: UAString::from("u"),
        server_index: 0,
    };
    assert_eq!(round_trip(with_uri), vec![0x80, 13, 1, 0, 0, 0, 117]);
    let with_server = ExpandedNodeId {
        node_id: NodeId::new_numeric(1, 256),
        namespace_uri: UAString::null(),
        server_index: 7,
    };
    assert_eq!(round_trip(with_server), vec![0x41, 1, 0, 1, 7, 0, 0, 0]);
    let with_both = ExpandedNodeId {
        node_id: NodeId::new_string(2, "s"),
        namespace_uri: UAString::from(""),
        server_index: u32::MAX,
    };
    assert_eq!(
        round_trip(with_both),
        vec![0xc3, 2, 0, 1, 0, 0, 0, 115, 0, 0, 0, 0, 0xff, 0xff, 0xff, 0xff]
    );
    assert_eq!(round_trip(ExpandedNodeId::null()), vec![0, 0]);
    assert_eq!(decoded_from::<ExpandedNodeId>(&[0x06, 0]), Err(EncodingError::InvalidEncoding));
    // the index 0 under a set flag is read as no index
    assert_eq!(
        decoded_from::<ExpandedNodeId>(&[0x40, 9, 0, 0, 0, 0]),
        Ok(ExpandedNodeId::new(NodeId::new_numeric(0, 9)))
    );
}

#[test]
fn variant_is_type_then_value() {
    assert_eq!(round_trip(Variant::Empty), vec![0]);
    assert_eq!(round_trip(Variant::Boolean(true)), vec![1, 1]);
    assert_eq!(round_trip(Variant::SByte(-1)), vec![2, 0xff]);
    assert_eq!(round_trip(Variant::Byte(7)), vec![3, 7]);
    assert_eq!(round_trip(Variant::Int16(-2)), vec![4, 0xfe, 0xff]);
    assert_eq!(round_trip(Variant::UInt16(258)), vec![5, 2, 1]);
    assert_eq!(round_trip(Variant::Int32(-1)), vec![6, 0xff, 0xff, 0xff, 0xff]);
    assert_eq!(round_trip(Variant::UInt32(1)), vec![7, 1, 0, 0, 0]);
    assert_eq!(round_trip(Variant::Int64(1)), vec![8, 1, 0, 0, 0, 0, 0, 0, 0]);
    assert_eq!(round_trip(Variant::UInt64(u64::MAX)), vec![9, 255, 255, 255, 255, 255, 255, 255, 255]);
    let mut float = vec![10];
    float.extend_from_slice(&1.5f32.to_le_bytes());
    assert_eq!(round_trip(Variant::Float(Float::from_bits(1.5f32.to_bits()))), float);
    let mut double = vec![11];
    double.extend_from_slice(&(-2.25f64).to_le_bytes());
    assert_eq!(round_trip(Variant::Double(Double::from_bits((-2.25f64).to_bits()))), double);
    assert_eq!(round_trip(Variant::String(UAString::from("a"))), vec![12, 1, 0, 0, 0, 97]);
    assert_eq!(round_trip(Variant::DateTime(DateTime::from_ticks(2))), vec![13, 2, 0, 0, 0, 0, 0, 0, 0]);
    let mut guid = vec![14];
    guid.extend_from_slice(&[0; 16]);
    assert_eq!(round_trip(Variant::Guid(Guid::null())), guid);
    assert_eq!(round_trip(Variant::ByteString(ByteString::from(vec![9]))), vec![15, 1, 0, 0, 0, 9]);
    assert_eq!(round_trip(Variant::XmlElement(UAString::null())), vec![16, 255, 255, 255, 255]);
    assert_eq!(round_trip(Variant::NodeId(NodeId::new_numeric(0, 1))), vec![17, 0, 1]);
    assert_eq!(
        round_trip(Variant::ExpandedNodeId(ExpandedNodeId::new(NodeId::new_numeric(0, 1)))),
        vec![18, 0, 1]
    );
    assert_eq!(round_trip(Variant::StatusCode(StatusCode(0x8000_0000))), vec![19, 0, 0, 0, 0x80]);
    assert_eq!(
        round_trip(Variant::QualifiedName(QualifiedName::new(1, "q"))),
        vec![20, 1, 0, 1, 0, 0, 0, 113]
    );
    assert_eq!(round_trip(Variant::LocalizedText(LocalizedText::null())), vec![21, 0]);
    assert_eq!(Variant::LocalizedText(LocalizedText::null()).type_id(), 21);
    assert_eq!(Variant::Empty.type_id(), 0);
}

#[test]
fn variant_types_that_are_not_there() {
    for id in 22..=25u8 {
        assert_eq!(decoded_from::<Variant>(&[id, 0]), Err(EncodingError::UnsupportedEncoding));
    }
    // arrays
    assert_eq!(decoded_from::<Variant>(&[0x80 | 7, 0, 0, 0, 0]), Err(EncodingError::UnsupportedEncoding));
    assert_eq!(decoded_from::<Variant>(&[0x40 | 7, 0, 0, 0, 0]), Err(EncodingError::UnsupportedEncoding));
    assert_eq!(decoded_from::<Variant>(&[26]), Err(EncodingError::InvalidEncoding));
    assert_eq!(decoded_from::<Variant>(&[63]), Err(EncodingError::InvalidEncoding));
}

#[test]
fn data_value_is_mask_then_fields() {
    let empty = DataValue {
        value: None,
        status: None,
        source_timestamp: None,
        source_picoseconds: None,
        server_timestamp: None,
        server_picoseconds: None,
    };
    assert_eq!(empty.encoding_mask(), 0);
    assert_eq!(round_trip(empty), vec![0]);
    assert_eq!(round_trip(DataValue::new(Variant::Byte(1))), vec![1, 3, 1]);
    assert_eq!(round_trip(DataValue::from_status(StatusCode(2))), vec![2, 2, 0, 0, 0]);
    let full = DataValue {
        value: Some(Variant::Boolean(false)),
        status: Some(StatusCode(1)),
        source_timestamp: Some(DateTime::from_ticks(2)),
        source_picoseconds: Some(3),
        server_timestamp: Some(DateTime::from_ticks(4)),
        server_picoseconds: Some(-5),
    };
    assert_eq!(full.encoding_mask(), 0x3f);
    assert_eq!(
        round_trip(full),
        vec![
            0x3f, 1, 0, // value
            1, 0, 0, 0, // status
            2, 0, 0, 0, 0, 0, 0, 0, // source time
            3, 0, // source picoseconds
            4, 0, 0, 0, 0, 0, 0, 0, // server time
            0xfb, 0xff, // server picoseconds
        ]
    );
    let server_only = DataValue {
        value: None,
        status: None,
        source_timestamp: None,
        source_picoseconds: None,
        server_timestamp: Some(DateTime::from_ticks(1)),
        server_picoseconds: None,
    };
    assert_eq!(round_trip(server_only), vec![8, 1, 0, 0, 0, 0, 0, 0, 0]);
    let picoseconds_only = DataValue {
        value: None,
        status: None,
        source_timestamp: None,
        source_picoseconds: Some(1),
        server_timestamp: None,
        server_picoseconds: Some(2),
    };
    assert_eq!(round_trip(picoseconds_only), vec![0x30, 1, 0, 2, 0]);
}

#[test]
fn data_change_notification_round_trips() {
    let notification = DataChangeNotification {
        monitored_items: Some(vec![
            MonitoredItemNotification { client_handle: 1, value: DataValue::new(Variant::UInt32(5)) },
            MonitoredItemNotification {
                client_handle: 2,
                value: DataValue::from_status(StatusCode(0x8034_0000)),
            },
        ]),
        diagnostic_infos: Some(vec![DiagnosticInfo::new()]),
    };
    assert_eq!(notification.object_id(), ObjectId::DataChangeNotification_Encoding_DefaultBinary);
    assert_eq!(ObjectId::DataChangeNotification_Encoding_DefaultBinary.number(), 811);
    assert_eq!(
        round_trip(notification),
        vec![
            2, 0, 0, 0, // two notifications
            1, 0, 0, 0, 1, 7, 5, 0, 0, 0, // handle 1, value
            2, 0, 0, 0, 2, 0, 0, 0x34, 0x80, // handle 2, status
            1, 0, 0, 0, 0, // one diagnostic info
        ]
    );
    round_trip(DataChangeNotification { monitored_items: None, diagnostic_infos: None });
}
