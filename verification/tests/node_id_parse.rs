use opcua_server::byte_string::ByteString;
use opcua_server::guid::Guid;
use opcua_server::node_id::{Identifier, NodeId};
use opcua_server::string::UAString;
use std::str::FromStr;

#[test]
fn parse_invalid_node_id() {
    let node_id = NodeId::from_str("ns=99 ;i=35");
    assert_eq!(node_id.is_err(), true);
    let node_id = NodeId::from_str("ns=99;i=x");
    assert_eq!(node_id.is_err(), true);
    let node_id = NodeId::from_str("ns=99;s=");
    assert_eq!(node_id.is_err(), true);
    let node_id = NodeId::from_str("ns=;s=valid str");
    assert_eq!(node_id.is_err(), true);
    let node_id = NodeId::from_str("ns=;s=valid str");
    assert_eq!(node_id.is_err(), true);
    let node_id = NodeId::from_str("ns=65537;s=valid str");
    assert_eq!(node_id.is_err(), true);
}

#[test]
fn parse_node_id_integer() {
    let node_id = NodeId::from_str("i=13");
    assert_eq!(node_id.is_ok(), true);
    let node_id = node_id.unwrap();
    assert_eq!(node_id.namespace, 0);
    assert_eq!(node_id.identifier, Identifier::Numeric(13));

    let node_id = NodeId::from_str("ns=99;i=35");
    assert_eq!(node_id.is_ok(), true);
    let node_id = node_id.unwrap();
    assert_eq!(node_id.namespace, 99);
    assert_eq!(node_id.identifier, Identifier::Numeric(35));
}

#[test]
fn parse_node_id_string() {
    let node_id = NodeId::from_str("ns=1;s=Hello World");
    assert_eq!(node_id.is_ok(), true);
    let node_id = node_id.unwrap();
    assert_eq!(node_id.namespace, 1);
    assert_eq!(node_id.identifier, Identifier::String(UAString::from("Hello World")));

    let node_id = NodeId::from_str("s=No NS this time");
    assert_eq!(node_id.is_ok(), true);
    let node_id = node_id.unwrap();
    assert_eq!(node_id.namespace, 0);
    assert_eq!(node_id.identifier, Identifier::String(UAString::from("No NS this time")));
}

#[test]
fn parse_node_id_guid() {
    let node_id = NodeId::from_str("g=72962B91-FA75-4ae6-8D28-B404DC7DAF63");
    assert_eq!(node_id.is_ok(), true);
    let node_id = node_id.unwrap();
    assert_eq!(node_id.namespace, 0);
    assert_eq!(
        node_id.identifier,
        Identifier::Guid(Guid::from_str("72962B91-FA75-4ae6-8D28-B404DC7DAF63").unwrap())
    );
}

#[test]
fn parse_node_id_byte_string() {
    let node_id = NodeId::from_str("ns=1;b=M/RbKBsRVkePCePcx24oRA==");
    assert_eq!(node_id.is_ok(), true);
    let node_id = node_id.unwrap();
    assert_eq!(node_id.namespace, 1);
    assert_eq!(
        node_id.identifier,
        Identifier::ByteString(ByteString::from_base64("M/RbKBsRVkePCePcx24oRA==").unwrap())
    );
    assert_eq!(&node_id.to_string(), "ns=1;b=M/RbKBsRVkePCePcx24oRA==");
}
