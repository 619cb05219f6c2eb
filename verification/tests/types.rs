use opcua_server::byte_string::{same_bytes, ByteString};
use opcua_server::date_time::DateTime;
use opcua_server::guid::Guid;
use opcua_server::node_id::{decimal_string, parse_decimal_text, NodeId};
use opcua_server::node_ids::ReferenceTypeId;
use opcua_server::status_codes::{
    StatusCode, BAD_NODE_ID_INVALID, BAD_NODE_ID_UNKNOWN, GOOD, INFO_OVERFLOW,
};
use opcua_server::string::UAString;
use std::str::FromStr;

#[test]
fn guid_text_is_lower_case_hyphenated() {
    let guid = Guid::from_str("72962B91-FA75-4AE6-8D28-B404DC7DAF63").unwrap();
    assert_eq!(guid.to_string(), "72962b91-fa75-4ae6-8d28-b404dc7daf63");
    assert_eq!(Guid::from_str(&guid.to_string()), Ok(guid));
    assert_eq!(Guid::null().to_string(), "00000000-0000-0000-0000-000000000000");
    assert_eq!(Guid::default(), Guid::null());
    assert!(Guid::null().is_null());
    assert!(!guid.is_null());
}

#[test]
fn guid_is_read_from_other_forms_too() {
    let guid = Guid::from_str("72962b91-fa75-4ae6-8d28-b404dc7daf63").unwrap();
    assert_eq!(Guid::from_str("72962B91FA754AE68D28B404DC7DAF63"), Ok(guid));
    assert_eq!(Guid::from_str("{72962b91-fa75-4ae6-8d28-b404dc7daf63}"), Ok(guid));
    assert_eq!(Guid::from_str("urn:uuid:72962b91-fa75-4ae6-8d28-b404dc7daf63"), Ok(guid));
}

#[test]
fn guid_is_not_read_from_other_text() {
    assert_eq!(Guid::from_str(""), Err(()));
    assert_eq!(Guid::from_str("72962B91-FA75-4AE6-8D28-B404DC7DAF6"), Err(()));
    assert_eq!(Guid::from_str("72962B91-FA75-4AE6-8D28-B404DC7DAF6Z"), Err(()));
}

#[test]
fn new_guid_is_random_and_of_version_four() {
    let a = Guid::new();
    let b = Guid::new();
    assert_ne!(a, b);
    assert_eq!(a.bytes[6] >> 4, 4);
    assert_eq!(a.bytes[8] >> 6, 2);
    assert!(!a.is_null());
}

#[test]
fn date_time_counts_ticks_since_1601() {
    assert_eq!(DateTime::from_unix(0, 0).ticks(), 116_444_736_000_000_000);
    assert_eq!(DateTime::from_unix(1, 150).ticks(), 116_444_736_010_000_001);
    assert_eq!(DateTime::from_unix(-11_644_473_600, 0).ticks(), 0);
    assert_eq!(DateTime::from_unix(-11_644_473_600, 99).ticks(), 0);
    assert_eq!(DateTime::from_unix(-11_644_473_600, 100).ticks(), 1);
    // before 1601 there is only the null time
    assert_eq!(DateTime::from_unix(-11_644_473_601, 0).ticks(), 0);
    assert_eq!(DateTime::from_unix(i64::MIN, 0).ticks(), 0);
    // and behind the last tick only the last tick
    assert_eq!(DateTime::from_unix(i64::MAX, 0).ticks(), i64::MAX);
    assert_eq!(DateTime::from_unix(910_692_730_085, 4_775_807_99).ticks(), i64::MAX);
    assert_eq!(DateTime::from_unix(910_692_730_085, 4_775_806_99).ticks(), i64::MAX - 1);
    assert!(DateTime::null().is_null());
    assert!(!DateTime::from_ticks(1).is_null());
}

#[test]
fn now_is_the_time_of_the_clock() {
    let before = std::time::SystemTime::now()
        .duration_since(std::time::UNIX_EPOCH)
        .unwrap()
        .as_secs() as i64;
    let now = DateTime::now();
    let seconds = now.ticks() / 10_000_000 - 11_644_473_600;
    assert!(seconds >= before - 2);
    assert!(seconds <= before + 2);
}

#[test]
fn byte_string_speaks_base64() {
    let bytes = ByteString::from_base64("M/RbKBsRVkePCePcx24oRA==").unwrap();
    assert_eq!(
        bytes,
        ByteString::from(vec![
            0x33, 0xf4, 0x5b, 0x28, 0x1b, 0x11, 0x56, 0x47, 0x8f, 0x09, 0xe3, 0xdc, 0xc7, 0x6e,
            0x28, 0x44
        ])
    );
    assert_eq!(bytes.as_base64(), "M/RbKBsRVkePCePcx24oRA==");
    assert_eq!(ByteString::from(vec![1, 2, 3]).as_base64(), "AQID");
    assert_eq!(ByteString::null().as_base64(), "");
    assert_eq!(ByteString::from_base64("AQID"), Some(ByteString::from(vec![1, 2, 3])));
    assert_eq!(ByteString::from_base64("not base64!"), None);
    assert_eq!(ByteString::from_base64("AQI"), None);
}

#[test]
fn random_byte_strings_have_the_length_asked_for() {
    assert_eq!(ByteString::random(0), ByteString::from(vec![]));
    let a = ByteString::random(32);
    let b = ByteString::random(32);
    assert_eq!(a.as_ref().len(), 32);
    assert_ne!(a, ByteString::from(vec![0; 32]));
    assert_ne!(a, b);
}

#[test]
fn byte_strings_compare_by_their_bytes() {
    assert!(same_bytes(&[1, 2], &[1, 2]));
    assert!(!same_bytes(&[1, 2], &[1, 3]));
    assert!(!same_bytes(&[1, 2], &[1]));
    assert_eq!(ByteString::null(), ByteString::default());
    assert_ne!(ByteString::null(), ByteString::from(vec![]));
    assert!(ByteString::null().is_null());
    assert_eq!(ByteString::null().as_ref().len(), 0);
    assert_eq!(ByteString::from(vec![5]).clone(), ByteString::from(vec![5]));
}

#[test]
fn strings_know_null_from_empty() {
    assert!(UAString::null().is_null());
    assert!(UAString::null().is_empty());
    assert!(!UAString::from("").is_null());
    assert!(UAString::from("").is_empty());
    assert!(!UAString::from("a").is_empty());
    assert_eq!(UAString::null().as_ref(), "");
    assert_eq!(UAString::from("abc").as_ref(), "abc");
    assert_ne!(UAString::null(), UAString::from(""));
    assert_eq!(UAString::default(), UAString::null());
    assert_eq!(UAString::from("abc").clone(), UAString::from("abc"));
}

#[test]
fn decimal_numbers_are_read_and_written() {
    assert_eq!(parse_decimal_text("0", 10), Some(0));
    assert_eq!(parse_decimal_text("0010", 10), Some(10));
    assert_eq!(parse_decimal_text("11", 10), None);
    assert_eq!(parse_decimal_text("", 10), None);
    assert_eq!(parse_decimal_text("+1", 10), None);
    assert_eq!(parse_decimal_text("1a", 10), None);
    assert_eq!(parse_decimal_text("4294967295", u32::MAX), Some(u32::MAX));
    assert_eq!(parse_decimal_text("4294967296", u32::MAX), None);
    assert_eq!(parse_decimal_text("99999999999999999999999999", u32::MAX), None);
    assert_eq!(decimal_string(0), "0");
    assert_eq!(decimal_string(9), "9");
    assert_eq!(decimal_string(10), "10");
    assert_eq!(decimal_string(4294967295), "4294967295");
}

#[test]
fn node_id_text_form() {
    assert_eq!(NodeId::new_numeric(0, 13).to_string(), "i=13");
    assert_eq!(NodeId::new_numeric(99, 35).to_string(), "ns=99;i=35");
    assert_eq!(NodeId::new_string(1, "Hello World").to_string(), "ns=1;s=Hello World");
    assert_eq!(NodeId::new_numeric(65535, 4294967295).to_string(), "ns=65535;i=4294967295");
    let guid = Guid::from_str("72962B91-FA75-4AE6-8D28-B404DC7DAF63").unwrap();
    assert_eq!(NodeId::new_guid(0, guid).to_string(), "g=72962b91-fa75-4ae6-8d28-b404dc7daf63");
    assert_eq!(NodeId::new_byte_string(2, ByteString::from(vec![1, 2, 3])).to_string(), "ns=2;b=AQID");
}

#[test]
fn node_id_text_is_read_back() {
    let ids = vec![
        NodeId::new_numeric(0, 0),
        NodeId::new_numeric(65535, 4294967295),
        NodeId::new_string(7, "a;b=c"),
        NodeId::new_guid(3, Guid::new()),
        NodeId::new_byte_string(2, ByteString::from(vec![0, 255, 7])),
    ];
    for id in ids {
        assert_eq!(NodeId::from_str(&id.to_string()), Ok(id));
    }
}

#[test]
fn node_id_text_errors() {
    let invalid = Err(StatusCode(BAD_NODE_ID_INVALID));
    assert_eq!(NodeId::from_str(""), invalid);
    assert_eq!(NodeId::from_str("i="), invalid);
    assert_eq!(NodeId::from_str("x=1"), invalid);
    assert_eq!(NodeId::from_str("i:1"), invalid);
    assert_eq!(NodeId::from_str("ns=1;"), invalid);
    assert_eq!(NodeId::from_str("ns=1i=3"), invalid);
    assert_eq!(NodeId::from_str("ns=65536;i=1"), invalid);
    assert_eq!(NodeId::from_str("i=4294967296"), invalid);
    assert_eq!(NodeId::from_str("g=1234"), invalid);
    assert_eq!(NodeId::from_str("b=%%%"), invalid);
    assert_eq!(NodeId::from_str("ns=65535;i=1"), Ok(NodeId::new_numeric(65535, 1)));
    assert_eq!(NodeId::from_str("ns=007;i=1"), Ok(NodeId::new_numeric(7, 1)));
    assert_eq!(NodeId::from_str("s=\u{e9}t\u{e9}"), Ok(NodeId::new_string(0, "\u{e9}t\u{e9}")));
}

#[test]
fn null_node_id() {
    assert!(NodeId::null().is_null());
    assert!(NodeId::new_numeric(0, 0).is_null());
    assert!(!NodeId::new_numeric(1, 0).is_null());
    assert!(!NodeId::new_string(0, "").is_null());
    assert!(NodeId::null().is_numeric());
    assert_eq!(NodeId::default(), NodeId::null());
}

#[test]
fn reference_types_have_their_numbers() {
    assert_eq!(ReferenceTypeId::Organizes.number(), 35);
    assert_eq!(ReferenceTypeId::HasSubtype.as_node_id(), NodeId::new_numeric(0, 45));
    assert_eq!(NodeId::new_numeric(0, 40).as_reference_type_id(), Ok(ReferenceTypeId::HasTypeDefinition));
    assert_eq!(NodeId::new_numeric(0, 42).as_reference_type_id(), Err(()));
    assert_eq!(NodeId::new_numeric(1, 40).as_reference_type_id(), Err(()));
    assert_eq!(NodeId::new_string(0, "40").as_reference_type_id(), Err(()));
    assert_eq!(ReferenceTypeId::from_number(49), Some(ReferenceTypeId::HasOrderedComponent));
    assert_eq!(ReferenceTypeId::from_number(50), None);
}

#[test]
fn status_code_parts() {
    let code = StatusCode(BAD_NODE_ID_UNKNOWN);
    assert_eq!(code.bits(), 0x8034_0000);
    assert!(code.is_bad());
    assert!(!code.is_good());
    assert!(StatusCode(GOOD).is_good());
    assert!(!StatusCode(0x4000_0000).is_good());
    assert!(!StatusCode(0x4000_0000).is_bad());
    let overflowed = StatusCode(GOOD).with_overflow();
    assert_eq!(overflowed.bits(), INFO_OVERFLOW);
    assert_eq!(overflowed.info_bits(), 0x0480);
    assert_eq!(overflowed.status(), GOOD);
    assert!(overflowed.is_good());
    assert_eq!(code.with_overflow().status(), BAD_NODE_ID_UNKNOWN);
}
