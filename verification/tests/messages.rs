use opcua_server::basic_types::{ExtensionObject, QualifiedName};
use opcua_server::byte_string::ByteString;
use opcua_server::date_time::DateTime;
use opcua_server::diagnostic_info::DiagnosticInfo;
use opcua_server::encoding::{BinaryEncoder, DecodingLimits, EncodingError, Reader};
use opcua_server::node_id::NodeId;
use opcua_server::service_types::double::Double;
use opcua_server::service_types::message_info::{MessageInfo, ObjectId};
use opcua_server::service_types::modify_subscription_request::ModifySubscriptionRequest;
use opcua_server::service_types::notification_message::NotificationMessage;
use opcua_server::service_types::publish_response::PublishResponse;
use opcua_server::service_types::query_next_request::QueryNextRequest;
use opcua_server::service_types::relative_path::{BrowsePath, RelativePath, RelativePathElement};
use opcua_server::service_types::request_header::RequestHeader;
use opcua_server::service_types::response_header::ResponseHeader;
use opcua_server::service_types::translate_browse_paths_to_node_ids_request::TranslateBrowsePathsToNodeIdsRequest;
use opcua_server::status_codes::{StatusCode, BAD_TIMEOUT, GOOD};
use opcua_server::string::UAString;

fn check<T: BinaryEncoder + PartialEq + std::fmt::Debug>(value: T) -> Vec<u8> {
    let mut bytes = Vec::new();
    let size = value.encode(&mut bytes).unwrap();
    assert_eq!(size, bytes.len());
    assert_eq!(value.byte_len(), bytes.len());
    let limits = DecodingLimits::default();
    let mut reader = Reader::new(&bytes);
    assert_eq!(T::decode(&mut reader, &limits), Ok(value));
    assert_eq!(reader.remaining(), 0);
    for cut in 0..bytes.len() {
        let mut reader = Reader::new(&bytes[..cut]);
        assert_eq!(T::decode(&mut reader, &limits), Err(EncodingError::UnexpectedEof));
    }
    bytes
}

fn request_header() -> RequestHeader {
    RequestHeader {
        authentication_token: NodeId::new_numeric(0, 5),
        timestamp: DateTime::from_ticks(2),
        request_handle: 3,
        return_diagnostics: 4,
        audit_entry_id: UAString::from("a"),
        timeout_hint: 6,
        additional_header: ExtensionObject::null(),
    }
}

fn request_header_bytes() -> Vec<u8> {
    vec![
        0, 5, // token
        2, 0, 0, 0, 0, 0, 0, 0, // time
        3, 0, 0, 0, // handle
        4, 0, 0, 0, // diagnostics
        1, 0, 0, 0, 97, // audit entry
        6, 0, 0, 0, // timeout hint
        0, 0, 0, // additional header
    ]
}

fn response_header() -> ResponseHeader {
    ResponseHeader {
        timestamp: DateTime::from_ticks(1),
        request_handle: 2,
        service_result: StatusCode(BAD_TIMEOUT),
        service_diagnostics: DiagnosticInfo::new(),
        string_table: Some(vec![UAString::from("x")]),
        additional_header: ExtensionObject::null(),
    }
}

fn response_header_bytes() -> Vec<u8> {
    vec![
        1, 0, 0, 0, 0, 0, 0, 0, // time
        2, 0, 0, 0, // handle
        0, 0, 0x0a, 0x80, // result
        0, // diagnostics
        1, 0, 0, 0, 1, 0, 0, 0, 120, // string table
        0, 0, 0, // additional header
    ]
}

#[test]
fn request_header_is_its_fields_in_order() {
    assert_eq!(check(request_header()), request_header_bytes());
}

#[test]
fn new_request_header_carries_token_time_and_handle() {
    let header = RequestHeader::new(&NodeId::new_numeric(1, 2), &DateTime::from_ticks(9), 77);
    assert_eq!(header.authentication_token, NodeId::new_numeric(1, 2));
    assert_eq!(header.timestamp, DateTime::from_ticks(9));
    assert_eq!(header.request_handle, 77);
    assert_eq!(header.return_diagnostics, 0);
    assert_eq!(header.audit_entry_id, UAString::null());
    assert_eq!(header.timeout_hint, 0);
    assert_eq!(header.additional_header, ExtensionObject::null());
}

#[test]
fn response_header_is_its_fields_in_order() {
    assert_eq!(check(response_header()), response_header_bytes());
}

#[test]
fn response_header_answers_the_request() {
    let request = request_header();
    let good = ResponseHeader::new_good(&request);
    assert_eq!(good.request_handle, 3);
    assert_eq!(good.service_result, StatusCode(GOOD));
    assert_eq!(good.service_diagnostics, DiagnosticInfo::new());
    assert_eq!(good.string_table, None);
    assert_eq!(good.additional_header, ExtensionObject::null());
    assert!(good.timestamp.ticks() > 0);
    let bad = ResponseHeader::new_service_result(&request, StatusCode(BAD_TIMEOUT));
    assert_eq!(bad.request_handle, 3);
    assert_eq!(bad.service_result, StatusCode(BAD_TIMEOUT));
    let timed = ResponseHeader::new_timestamped_service_result(
        DateTime::from_ticks(5),
        &request,
        StatusCode(GOOD),
    );
    assert_eq!(timed.timestamp, DateTime::from_ticks(5));
}

#[test]
fn query_next_request_round_trips() {
    let request = QueryNextRequest {
        request_header: request_header(),
        release_continuation_point: true,
        continuation_point: ByteString::from(vec![1, 2]),
    };
    assert_eq!(request.object_id(), ObjectId::QueryNextRequest_Encoding_DefaultBinary);
    let mut expected = request_header_bytes();
    expected.extend_from_slice(&[1, 2, 0, 0, 0, 1, 2]);
    assert_eq!(check(request), expected);
}

#[test]
fn modify_subscription_request_round_trips() {
    let request = ModifySubscriptionRequest {
        request_header: request_header(),
        subscription_id: 1,
        requested_publishing_interval: Double::from_bits(100.0f64.to_bits()),
        requested_lifetime_count: 2,
        requested_max_keep_alive_count: 3,
        max_notifications_per_publish: 4,
        priority: 5,
    };
    assert_eq!(request.object_id(), ObjectId::ModifySubscriptionRequest_Encoding_DefaultBinary);
    assert_eq!(f64::from_bits(request.requested_publishing_interval.to_bits()), 100.0);
    let mut expected = request_header_bytes();
    expected.extend_from_slice(&[1, 0, 0, 0]);
    expected.extend_from_slice(&100.0f64.to_le_bytes());
    expected.extend_from_slice(&[2, 0, 0, 0, 3, 0, 0, 0, 4, 0, 0, 0, 5]);
    assert_eq!(check(request), expected);
}

#[test]
fn publish_response_round_trips() {
    let mut info = DiagnosticInfo::new();
    info.inner_status_code = Some(StatusCode(BAD_TIMEOUT));
    let response = PublishResponse {
        response_header: response_header(),
        subscription_id: 7,
        available_sequence_numbers: Some(vec![1, 2]),
        more_notifications: false,
        notification_message: NotificationMessage {
            sequence_number: 2,
            publish_time: DateTime::from_ticks(3),
            notification_data: Some(vec![ExtensionObject::null()]),
        },
        results: Some(vec![StatusCode(GOOD)]),
        diagnostic_infos: Some(vec![info]),
    };
    assert_eq!(response.object_id(), ObjectId::PublishResponse_Encoding_DefaultBinary);
    let mut expected = response_header_bytes();
    expected.extend_from_slice(&[
        7, 0, 0, 0, // subscription
        2, 0, 0, 0, 1, 0, 0, 0, 2, 0, 0, 0, // sequence numbers
        0, // more
        2, 0, 0, 0, 3, 0, 0, 0, 0, 0, 0, 0, 1, 0, 0, 0, 0, 0, 0, // message
        1, 0, 0, 0, 0, 0, 0, 0, // results
        1, 0, 0, 0, 0x20, 0, 0, 0x0a, 0x80, // diagnostics
    ]);
    assert_eq!(check(response), expected);
}

#[test]
fn publish_response_with_null_arrays_round_trips() {
    let response = PublishResponse {
        response_header: response_header(),
        subscription_id: 0,
        available_sequence_numbers: None,
        more_notifications: true,
        notification_message: NotificationMessage {
            sequence_number: 0,
            publish_time: DateTime::null(),
            notification_data: None,
        },
        results: None,
        diagnostic_infos: None,
    };
    check(response);
}

#[test]
fn translate_request_round_trips() {
    let element = RelativePathElement {
        reference_type_id: NodeId::new_numeric(0, 35),
        is_inverse: false,
        include_subtypes: true,
        target_name: QualifiedName::new(0, "Objects"),
    };
    let request = TranslateBrowsePathsToNodeIdsRequest {
        request_header: request_header(),
        browse_paths: Some(vec![
            BrowsePath {
                starting_node: NodeId::new_numeric(0, 84),
                relative_path: RelativePath { elements: Some(vec![element]) },
            },
            BrowsePath {
                starting_node: NodeId::new_string(1, "x"),
                relative_path: RelativePath { elements: None },
            },
        ]),
    };
    assert_eq!(
        request.object_id(),
        ObjectId::TranslateBrowsePathsToNodeIdsRequest_Encoding_DefaultBinary
    );
    let mut expected = request_header_bytes();
    expected.extend_from_slice(&[
        2, 0, 0, 0, // two paths
        0, 84, // starting node
        1, 0, 0, 0, // one element
        0, 35, 0, 1, 0, 0, 7, 0, 0, 0, 79, 98, 106, 101, 99, 116, 115, // the element
        3, 1, 0, 1, 0, 0, 0, 120, // starting node
        0xff, 0xff, 0xff, 0xff, // no elements
    ]);
    assert_eq!(check(request), expected);
    let empty = TranslateBrowsePathsToNodeIdsRequest {
        request_header: request_header(),
        browse_paths: None,
    };
    check(empty);
}

#[test]
fn object_ids_have_their_numbers() {
    assert_eq!(ObjectId::QueryNextRequest_Encoding_DefaultBinary.number(), 621);
    assert_eq!(ObjectId::ModifySubscriptionRequest_Encoding_DefaultBinary.number(), 793);
    assert_eq!(ObjectId::PublishResponse_Encoding_DefaultBinary.number(), 829);
    assert_eq!(
        ObjectId::TranslateBrowsePathsToNodeIdsRequest_Encoding_DefaultBinary.as_node_id(),
        NodeId::new_numeric(0, 554)
    );
}

#[test]
fn a_wrong_byte_in_a_message_is_an_error_or_another_message() {
    let request = QueryNextRequest {
        request_header: request_header(),
        release_continuation_point: false,
        continuation_point: ByteString::null(),
    };
    let mut bytes = Vec::new();
    request.encode(&mut bytes).unwrap();
    // an unknown form of node id at the start
    bytes[0] = 9;
    let limits = DecodingLimits::default();
    let mut reader = Reader::new(&bytes);
    assert_eq!(QueryNextRequest::decode(&mut reader, &limits), Err(EncodingError::InvalidEncoding));
}
