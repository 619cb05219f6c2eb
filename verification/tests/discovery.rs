use opcua_server::basic_types::{ExtensionObject, LocalizedText};
use opcua_server::byte_string::ByteString;
use opcua_server::comms::message::SupportedMessage;
use opcua_server::date_time::DateTime;
use opcua_server::node_id::NodeId;
use opcua_server::service_types::discovery_messages::{
    clone_policies, EndpointDescription, GetEndpointsRequest, UserTokenPolicy, UserTokenType,
};
use opcua_server::service_types::request_header::RequestHeader;
use opcua_server::service_types::secure_channel_messages::MessageSecurityMode;
use opcua_server::services::discovery::DiscoveryService;
use opcua_server::state::{ServerState, TRANSPORT_PROFILE_URI_BINARY};
use opcua_server::status_codes::{StatusCode, GOOD};
use opcua_server::string::UAString;

fn endpoint(url: &str, mode: MessageSecurityMode, policy: &str) -> EndpointDescription {
    EndpointDescription {
        endpoint_url: UAString::from(url),
        server_certificate: ByteString::from(vec![1, 2, 3]),
        security_mode: mode,
        security_policy_uri: UAString::from(policy),
        user_identity_tokens: Some(vec![
            UserTokenPolicy { policy_id: UAString::from("anonymous"), token_type: UserTokenType::Anonymous },
            UserTokenPolicy { policy_id: UAString::from("user"), token_type: UserTokenType::UserName },
        ]),
        transport_profile_uri: UAString::from(TRANSPORT_PROFILE_URI_BINARY),
        security_level: 1,
    }
}

fn endpoints() -> Vec<EndpointDescription> {
    vec![
        endpoint(
            "opc.tcp://localhost:4855/",
            MessageSecurityMode::NoSecurity,
            "http://opcfoundation.org/UA/SecurityPolicy#None",
        ),
        endpoint(
            "opc.tcp://localhost:4855/",
            MessageSecurityMode::SignAndEncrypt,
            "http://opcfoundation.org/UA/SecurityPolicy#Basic256Sha256",
        ),
    ]
}

fn state() -> ServerState {
    ServerState::new(
        UAString::from("urn:server"),
        UAString::from("urn:product"),
        LocalizedText::new("", "Server"),
        endpoints(),
    )
}

fn request(profile_uris: Option<Vec<UAString>>) -> GetEndpointsRequest {
    GetEndpointsRequest {
        request_header: RequestHeader {
            authentication_token: NodeId::null(),
            timestamp: DateTime::from_ticks(1),
            request_handle: 11,
            return_diagnostics: 0,
            audit_entry_id: UAString::null(),
            timeout_hint: 0,
            additional_header: ExtensionObject::null(),
        },
        endpoint_url: UAString::from("opc.tcp://localhost:4855/"),
        locale_ids: None,
        profile_uris,
    }
}

fn answer(profile_uris: Option<Vec<UAString>>) -> Option<Vec<EndpointDescription>> {
    let service = DiscoveryService::new();
    match service.get_endpoints(&state(), request(profile_uris)) {
        Ok(SupportedMessage::GetEndpointsResponse(response)) => {
            assert_eq!(response.response_header.request_handle, 11);
            assert_eq!(response.response_header.service_result, StatusCode(GOOD));
            response.endpoints
        }
        other => panic!("no response: {:?}", other),
    }
}

#[test]
fn all_endpoints_are_returned_without_profiles() {
    assert_eq!(answer(None), Some(endpoints()));
    assert_eq!(answer(Some(vec![])), Some(endpoints()));
}

#[test]
fn endpoints_are_returned_for_the_binary_profile() {
    assert_eq!(answer(Some(vec![UAString::from(TRANSPORT_PROFILE_URI_BINARY)])), Some(endpoints()));
    assert_eq!(
        answer(Some(vec![
            UAString::from("http://opcfoundation.org/UA-Profile/Transport/https-uabinary"),
            UAString::from(TRANSPORT_PROFILE_URI_BINARY),
        ])),
        Some(endpoints())
    );
}

#[test]
fn no_endpoints_are_returned_for_other_profiles() {
    assert_eq!(
        answer(Some(vec![UAString::from(
            "http://opcfoundation.org/UA-Profile/Transport/https-uabinary"
        )])),
        None
    );
    assert_eq!(answer(Some(vec![UAString::null()])), None);
    assert_eq!(state().endpoints(&Some(vec![UAString::from("x")])), None);
}

#[test]
fn endpoints_are_copied() {
    let one = endpoint("a", MessageSecurityMode::Sign, "b");
    assert_eq!(one.clone(), one);
    assert_eq!(clone_policies(&one.user_identity_tokens), one.user_identity_tokens);
    assert_eq!(clone_policies(&None), None);
    assert_eq!(
        TRANSPORT_PROFILE_URI_BINARY,
        "http://opcfoundation.org/UA-Profile/Transport/uatcp-uasc-uabinary"
    );
}
