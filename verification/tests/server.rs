use opcua_server::address_space::{AddressSpace, Node};
use opcua_server::basic_types::{ExtensionObject, LocalizedText, QualifiedName};
use opcua_server::byte_string::ByteString;
use opcua_server::comms::message::SupportedMessage;
use opcua_server::date_time::DateTime;
use opcua_server::node_id::NodeId;
use opcua_server::node_ids::ReferenceTypeId;
use opcua_server::server::{Environment, Server};
use opcua_server::service_types::discovery_messages::GetEndpointsRequest;
use opcua_server::service_types::monitored_item_messages::{PublishRequest, ReadValueId};
use opcua_server::service_types::request_header::RequestHeader;
use opcua_server::comms::secure_channel::{SecureChannel, SecurityPolicy};
use opcua_server::comms::secure_channel_service::SecureChannelService;
use opcua_server::comms::security_header::{AsymmetricSecurityHeader, SecurityHeader};
use opcua_server::comms::tcp_types::{HelloMessage, ServerLimits};
use opcua_server::service_types::secure_channel_messages::{
    CloseSecureChannelRequest, MessageSecurityMode, OpenSecureChannelRequest,
    SecurityTokenRequestType, ServiceFault,
};
use opcua_server::service_types::session_messages::{
    ActivateSessionRequest, CloseSessionRequest, CreateSessionRequest, CreateSessionResponse,
    ReadRequest, RepublishRequest, UserIdentityToken,
};
use opcua_server::service_types::view_messages::{
    BrowseDescription, BrowseDirection, BrowseRequest, ViewDescription,
};
use opcua_server::services::attribute::AttributeService;
use opcua_server::services::session::SessionService;
use opcua_server::session_manager::SessionManager;
use opcua_server::state::{ServerState, ServerUser};
use opcua_server::status_codes::{
    StatusCode, BAD_ATTRIBUTE_ID_INVALID, BAD_IDENTITY_TOKEN_REJECTED,
    BAD_MESSAGE_NOT_AVAILABLE, BAD_NODE_ID_UNKNOWN, BAD_NOTHING_TO_DO,
    BAD_SECURE_CHANNEL_ID_INVALID, BAD_SERVICE_UNSUPPORTED, BAD_SESSION_CLOSED,
    BAD_SESSION_ID_INVALID, BAD_SESSION_NOT_ACTIVATED, BAD_SUBSCRIPTION_ID_INVALID,
    BAD_TOO_MANY_SESSIONS, GOOD,
};
use opcua_server::string::UAString;
use opcua_server::subscriptions::subscription::Subscription;
use opcua_server::variant::{DataValue, Variant};

fn header(token: &NodeId, handle: u32) -> RequestHeader {
    RequestHeader::new(token, &DateTime::from_ticks(1), handle)
}

fn environment(now: i64, token: u32) -> Environment {
    Environment {
        now: DateTime::from_ticks(now),
        certificate_valid: false,
        authentication_token: NodeId::new_numeric(9, token),
        server_nonce: ByteString::from(vec![1, 2, 3]),
    }
}

fn state() -> ServerState {
    let mut state = ServerState::new(
        UAString::from("urn:server"),
        UAString::from("urn:product"),
        LocalizedText::new("", "Server"),
        vec![],
    );
    state.users.push(ServerUser { user: UAString::from("sample"), password: UAString::from("sample1") });
    state
}

fn server(max_sessions: usize) -> Server {
    let mut space = AddressSpace::new();
    space
        .add_variable(
            Node::new_variable(&NodeId::new_numeric(1, 1), "v", DataValue::new(Variant::UInt32(7))),
            &NodeId::new_numeric(0, 85),
            ReferenceTypeId::HasComponent,
        )
        .unwrap();
    Server::new(state(), space, max_sessions)
}

fn create(server: &mut Server, channel: u32, now: i64, token: u32) -> CreateSessionResponse {
    let request = CreateSessionRequest {
        request_header: header(&NodeId::null(), 1),
        session_name: UAString::from("test"),
        client_nonce: ByteString::null(),
        requested_session_timeout: 1000,
    };
    match server.handle_message(channel, SupportedMessage::CreateSessionRequest(request), environment(now, token)) {
        Some(SupportedMessage::CreateSessionResponse(response)) => response,
        other => panic!("no session was made: {:?}", other),
    }
}

fn activate(server: &mut Server, channel: u32, now: i64, token: &NodeId, identity: UserIdentityToken) -> SupportedMessage {
    let request = ActivateSessionRequest {
        request_header: header(token, 2),
        user_identity_token: identity,
    };
    server
        .handle_message(channel, SupportedMessage::ActivateSessionRequest(request), environment(now, 0))
        .unwrap()
}

fn browse_root(token: &NodeId) -> SupportedMessage {
    SupportedMessage::BrowseRequest(BrowseRequest {
        request_header: header(token, 3),
        view: ViewDescription { view_id: NodeId::null(), timestamp: DateTime::null(), view_version: 0 },
        requested_max_references_per_node: 0,
        nodes_to_browse: Some(vec![BrowseDescription {
            node_id: NodeId::new_numeric(0, 84),
            browse_direction: BrowseDirection::Forward,
            reference_type_id: NodeId::null(),
            include_subtypes: false,
            node_class_mask: 0,
            result_mask: 0x3f,
        }]),
    })
}

fn read(token: &NodeId, nodes: Option<Vec<(NodeId, u32)>>) -> ReadRequest {
    ReadRequest {
        request_header: header(token, 4),
        nodes_to_read: nodes.map(|nodes| {
            nodes
                .into_iter()
                .map(|(node_id, attribute_id)| ReadValueId {
                    node_id,
                    attribute_id,
                    index_range: UAString::null(),
                    data_encoding: QualifiedName::null(),
                })
                .collect()
        }),
    }
}

fn fault(message: Option<SupportedMessage>) -> (u32, StatusCode) {
    match message {
        Some(SupportedMessage::ServiceFault(ServiceFault { response_header })) => {
            (response_header.request_handle, response_header.service_result)
        }
        other => panic!("no fault: {:?}", other),
    }
}

#[test]
fn a_session_is_made_activated_used_and_ended() {
    let mut server = server(10);
    let created = create(&mut server, 5, 1000, 77);
    assert_eq!(created.response_header.service_result, StatusCode(GOOD));
    assert_eq!(created.response_header.request_handle, 1);
    assert_eq!(created.response_header.timestamp, DateTime::from_ticks(1000));
    assert_eq!(created.session_id, NodeId::new_numeric(1, 1));
    assert_eq!(created.authentication_token, NodeId::new_numeric(9, 77));
    assert_eq!(created.revised_session_timeout, 1000);
    assert_eq!(created.server_nonce, ByteString::from(vec![1, 2, 3]));
    assert_eq!(created.server_endpoints, Some(vec![]));
    let token = created.authentication_token;

    // before it is activated the session cannot be used
    assert_eq!(
        fault(server.handle_message(5, browse_root(&token), environment(1001, 0))),
        (3, StatusCode(BAD_SESSION_NOT_ACTIVATED))
    );
    match activate(&mut server, 5, 1002, &token, UserIdentityToken::Anonymous) {
        SupportedMessage::ActivateSessionResponse(response) => {
            assert_eq!(response.response_header.service_result, StatusCode(GOOD));
            assert_eq!(response.server_nonce, ByteString::from(vec![1, 2, 3]));
        }
        other => panic!("not activated: {:?}", other),
    }
    match server.handle_message(5, browse_root(&token), environment(1003, 0)) {
        Some(SupportedMessage::BrowseResponse(response)) => {
            assert_eq!(response.response_header.service_result, StatusCode(GOOD));
            let results = response.results.unwrap();
            assert_eq!(results[0].status_code, StatusCode(GOOD));
            let names: Vec<&str> = results[0]
                .references
                .as_ref()
                .unwrap()
                .iter()
                .map(|r| r.browse_name.name.as_ref())
                .collect();
            assert_eq!(names, vec!["Objects", "Types", "Views"]);
        }
        other => panic!("no browse response: {:?}", other),
    }
    assert_eq!(server.sessions.session(0).last_activity(), DateTime::from_ticks(1003));
    let close = CloseSessionRequest { request_header: header(&token, 5), delete_subscriptions: true };
    match server.handle_message(5, SupportedMessage::CloseSessionRequest(close), environment(1004, 0)) {
        Some(SupportedMessage::CloseSessionResponse(response)) => {
            assert_eq!(response.response_header.service_result, StatusCode(GOOD));
            assert_eq!(response.response_header.request_handle, 5);
        }
        other => panic!("not closed: {:?}", other),
    }
    assert_eq!(server.sessions.session_count(), 0);
    assert_eq!(
        fault(server.handle_message(5, browse_root(&token), environment(1005, 0))),
        (3, StatusCode(BAD_SESSION_ID_INVALID))
    );
}

#[test]
fn reading_the_current_time_gives_the_time_of_the_request() {
    let mut server = server(10);
    let token = create(&mut server, 5, 1000, 1).authentication_token;
    activate(&mut server, 5, 1000, &token, UserIdentityToken::Anonymous);
    let request = read(
        &token,
        Some(vec![
            (NodeId::new_numeric(0, 2258), 13),
            (NodeId::new_numeric(1, 1), 13),
            (NodeId::new_numeric(1, 1), 1),
            (NodeId::new_numeric(1, 1), 2),
            (NodeId::new_numeric(1, 1), 3),
            (NodeId::new_numeric(1, 1), 4),
            (NodeId::new_numeric(1, 1), 5),
            (NodeId::new_numeric(1, 1), 6),
            (NodeId::new_numeric(1, 1), 7),
            (NodeId::new_numeric(1, 1), 99),
            (NodeId::new_numeric(0, 85), 13),
            (NodeId::new_numeric(1, 404), 13),
        ]),
    );
    let now = DateTime::from_ticks(5000);
    let stamped = |value: Variant| DataValue {
        value: Some(value),
        status: Some(StatusCode(GOOD)),
        source_timestamp: None,
        source_picoseconds: None,
        server_timestamp: Some(now),
        server_picoseconds: None,
    };
    match server.handle_message(5, SupportedMessage::ReadRequest(request), environment(5000, 0)) {
        Some(SupportedMessage::ReadResponse(response)) => {
            assert_eq!(response.response_header.service_result, StatusCode(GOOD));
            assert_eq!(response.response_header.timestamp, now);
            assert_eq!(response.diagnostic_infos, None);
            assert_eq!(
                response.results.unwrap(),
                vec![
                    stamped(Variant::DateTime(now)),
                    DataValue::new(Variant::UInt32(7)),
                    stamped(Variant::NodeId(NodeId::new_numeric(1, 1))),
                    stamped(Variant::Int32(2)),
                    stamped(Variant::QualifiedName(QualifiedName::new(0, "v"))),
                    stamped(Variant::LocalizedText(LocalizedText::new("", "v"))),
                    stamped(Variant::LocalizedText(LocalizedText::null())),
                    stamped(Variant::UInt32(0)),
                    stamped(Variant::UInt32(0)),
                    DataValue::from_status(StatusCode(BAD_ATTRIBUTE_ID_INVALID)),
                    DataValue::from_status(StatusCode(BAD_ATTRIBUTE_ID_INVALID)),
                    DataValue::from_status(StatusCode(BAD_NODE_ID_UNKNOWN)),
                ]
            );
        }
        other => panic!("no read response: {:?}", other),
    }
    let nothing = read(&token, Some(vec![]));
    assert_eq!(
        fault(server.handle_message(5, SupportedMessage::ReadRequest(nothing), environment(5001, 0))),
        (4, StatusCode(BAD_NOTHING_TO_DO))
    );
    let nothing = read(&token, None);
    assert_eq!(
        fault(server.handle_message(5, SupportedMessage::ReadRequest(nothing), environment(5001, 0))),
        (4, StatusCode(BAD_NOTHING_TO_DO))
    );
}

#[test]
fn read_with_the_clock_is_close_to_the_clock() {
    let server = server(1);
    let service = AttributeService::new();
    let request = read(&NodeId::null(), Some(vec![(NodeId::new_numeric(0, 2258), 13)]));
    let before = DateTime::now();
    let response = match service.read(&server.address_space, request) {
        Ok(SupportedMessage::ReadResponse(response)) => response,
        other => panic!("no read response: {:?}", other),
    };
    let after = DateTime::now();
    match response.results.unwrap()[0].value {
        Some(Variant::DateTime(time)) => {
            assert!(before.ticks() <= time.ticks());
            assert!(time.ticks() <= after.ticks());
            // within two seconds
            assert!(after.ticks() - time.ticks() <= 20_000_000);
        }
        ref other => panic!("no time: {:?}", other),
    }
}

#[test]
fn identities_are_judged() {
    let mut server = server(10);
    let token = create(&mut server, 5, 1000, 1).authentication_token;
    let by_name = |user: &str, password: &str| {
        UserIdentityToken::UserName(UAString::from(user), ByteString::from(password.as_bytes().to_vec()))
    };
    let status = |message: SupportedMessage| match message {
        SupportedMessage::ServiceFault(fault) => fault.response_header.service_result,
        SupportedMessage::ActivateSessionResponse(response) => response.response_header.service_result,
        other => panic!("another message: {:?}", other),
    };
    let rejected = StatusCode(BAD_IDENTITY_TOKEN_REJECTED);
    assert_eq!(status(activate(&mut server, 5, 1000, &token, by_name("sample", "wrong"))), rejected);
    assert_eq!(status(activate(&mut server, 5, 1000, &token, by_name("other", "sample1"))), rejected);
    assert_eq!(
        status(activate(
            &mut server,
            5,
            1000,
            &token,
            UserIdentityToken::UserName(UAString::from("sample"), ByteString::null())
        )),
        rejected
    );
    assert_eq!(
        status(activate(&mut server, 5, 1000, &token, UserIdentityToken::X509(ByteString::from(vec![1])))),
        rejected
    );
    assert!(!server.sessions.session(0).is_activated());
    assert_eq!(status(activate(&mut server, 5, 1000, &token, by_name("sample", "sample1"))), StatusCode(GOOD));
    assert!(server.sessions.session(0).is_activated());
    server.state.allow_anonymous = false;
    assert_eq!(status(activate(&mut server, 5, 1000, &token, UserIdentityToken::Anonymous)), rejected);
    assert!(SessionService::is_identity_accepted(
        &server.state,
        &UserIdentityToken::X509(ByteString::from(vec![1])),
        true
    ));
    assert!(!SessionService::is_identity_accepted(
        &server.state,
        &UserIdentityToken::X509(ByteString::null()),
        true
    ));
    assert!(server.state.knows_user(&UAString::from("sample"), b"sample1"));
    assert!(!server.state.knows_user(&UAString::null(), b"sample1"));
    assert_eq!(
        status(activate(&mut server, 5, 1000, &NodeId::new_numeric(9, 404), UserIdentityToken::Anonymous)),
        StatusCode(BAD_SESSION_ID_INVALID)
    );
}

#[test]
fn a_session_moves_to_the_channel_that_activates_it() {
    let mut server = server(10);
    let token = create(&mut server, 5, 1000, 1).authentication_token;
    activate(&mut server, 5, 1000, &token, UserIdentityToken::Anonymous);
    assert!(matches!(
        server.handle_message(5, browse_root(&token), environment(1001, 0)),
        Some(SupportedMessage::BrowseResponse(_))
    ));
    // another channel cannot use it
    assert_eq!(
        fault(server.handle_message(6, browse_root(&token), environment(1002, 0))),
        (3, StatusCode(BAD_SECURE_CHANNEL_ID_INVALID))
    );
    activate(&mut server, 6, 1003, &token, UserIdentityToken::Anonymous);
    assert!(matches!(
        server.handle_message(6, browse_root(&token), environment(1004, 0)),
        Some(SupportedMessage::BrowseResponse(_))
    ));
    // and now the old channel cannot
    assert_eq!(
        fault(server.handle_message(5, browse_root(&token), environment(1005, 0))),
        (3, StatusCode(BAD_SECURE_CHANNEL_ID_INVALID))
    );
    let close = CloseSessionRequest { request_header: header(&token, 5), delete_subscriptions: true };
    assert_eq!(
        fault(server.handle_message(5, SupportedMessage::CloseSessionRequest(close), environment(1006, 0))),
        (5, StatusCode(BAD_SECURE_CHANNEL_ID_INVALID))
    );
    assert_eq!(server.sessions.session_count(), 1);
}

#[test]
fn sessions_end_by_timeout() {
    let mut server = server(10);
    // a timeout of 1000 ms is 10 000 000 ticks
    let token = create(&mut server, 5, 0, 1).authentication_token;
    activate(&mut server, 5, 0, &token, UserIdentityToken::Anonymous);
    assert!(matches!(
        server.handle_message(5, browse_root(&token), environment(10_000_000, 0)),
        Some(SupportedMessage::BrowseResponse(_))
    ));
    assert_eq!(
        fault(server.handle_message(5, browse_root(&token), environment(20_000_001, 0))),
        (3, StatusCode(BAD_SESSION_CLOSED))
    );
    let status = match activate(&mut server, 5, 20_000_001, &token, UserIdentityToken::Anonymous) {
        SupportedMessage::ServiceFault(fault) => fault.response_header.service_result,
        other => panic!("another message: {:?}", other),
    };
    assert_eq!(status, StatusCode(BAD_SESSION_CLOSED));
    assert_eq!(server.sessions.remove_expired_sessions(DateTime::from_ticks(20_000_000)), 0);
    assert_eq!(server.sessions.remove_expired_sessions(DateTime::from_ticks(20_000_001)), 1);
    assert_eq!(server.sessions.session_count(), 0);
}

#[test]
fn sessions_are_counted_and_numbered() {
    let mut server = server(2);
    assert_eq!(create(&mut server, 1, 0, 1).session_id, NodeId::new_numeric(1, 1));
    assert_eq!(create(&mut server, 2, 0, 2).session_id, NodeId::new_numeric(1, 2));
    let request = CreateSessionRequest {
        request_header: header(&NodeId::null(), 8),
        session_name: UAString::null(),
        client_nonce: ByteString::null(),
        requested_session_timeout: 0,
    };
    assert_eq!(
        fault(server.handle_message(3, SupportedMessage::CreateSessionRequest(request.clone()), environment(0, 3))),
        (8, StatusCode(BAD_TOO_MANY_SESSIONS))
    );
    // closing the channel ends its sessions
    assert_eq!(server.sessions.close_secure_channel(1), 1);
    assert_eq!(server.sessions.close_secure_channel(1), 0);
    match server.handle_message(3, SupportedMessage::CreateSessionRequest(request), environment(0, 3)) {
        Some(SupportedMessage::CreateSessionResponse(response)) => {
            assert_eq!(response.session_id, NodeId::new_numeric(1, 3));
            assert_eq!(response.revised_session_timeout, 60_000);
        }
        other => panic!("no session was made: {:?}", other),
    }
    assert_eq!(server.sessions.find(&NodeId::new_numeric(9, 2)), Some(0));
    assert_eq!(server.sessions.find(&NodeId::new_numeric(9, 1)), None);
}

#[test]
fn session_service_makes_random_secrets() {
    let mut sessions = SessionManager::new(10);
    let service = SessionService::new();
    let request = CreateSessionRequest {
        request_header: header(&NodeId::null(), 8),
        session_name: UAString::null(),
        client_nonce: ByteString::null(),
        requested_session_timeout: 0,
    };
    let first = match service.create_session(&mut sessions, &state(), 1, &request) {
        SupportedMessage::CreateSessionResponse(response) => response,
        other => panic!("no session was made: {:?}", other),
    };
    let second = match service.create_session(&mut sessions, &state(), 1, &request) {
        SupportedMessage::CreateSessionResponse(response) => response,
        other => panic!("no session was made: {:?}", other),
    };
    assert_ne!(first.authentication_token, second.authentication_token);
    assert_ne!(first.server_nonce, second.server_nonce);
    assert_eq!(first.server_nonce.as_ref().len(), 32);
    assert_eq!(sessions.session_count(), 2);
    assert_eq!(sessions.find(&second.authentication_token), Some(1));
}

#[test]
fn endpoints_need_no_session() {
    let mut server = server(10);
    let request = GetEndpointsRequest {
        request_header: header(&NodeId::null(), 6),
        endpoint_url: UAString::null(),
        locale_ids: None,
        profile_uris: None,
    };
    match server.handle_message(1, SupportedMessage::GetEndpointsRequest(request), environment(0, 0)) {
        Some(SupportedMessage::GetEndpointsResponse(response)) => {
            assert_eq!(response.response_header.request_handle, 6);
            assert_eq!(response.endpoints, Some(vec![]));
        }
        other => panic!("no endpoints: {:?}", other),
    }
}

#[test]
fn other_messages_are_not_supported() {
    let mut server = server(10);
    let close = CloseSecureChannelRequest { request_header: header(&NodeId::null(), 12) };
    assert_eq!(
        fault(server.handle_message(1, SupportedMessage::CloseSecureChannelRequest(close), environment(0, 0))),
        (12, StatusCode(BAD_SERVICE_UNSUPPORTED))
    );
    let response = ServiceFault::new_timestamped(DateTime::null(), &header(&NodeId::null(), 13), StatusCode(GOOD));
    assert_eq!(
        fault(server.handle_message(1, response, environment(0, 0))),
        (0, StatusCode(BAD_SERVICE_UNSUPPORTED))
    );
}

#[test]
fn publish_requests_wait_and_messages_are_republished() {
    let mut server = server(10);
    let token = create(&mut server, 5, 0, 1).authentication_token;
    activate(&mut server, 5, 0, &token, UserIdentityToken::Anonymous);
    let publish = PublishRequest { request_header: header(&token, 20), subscription_acknowledgements: None };
    assert_eq!(server.handle_message(5, SupportedMessage::PublishRequest(publish.clone()), environment(1, 0)), None);
    assert_eq!(server.sessions.session(0).subscriptions().publish_request_queue.len(), 1);
    assert_eq!(
        fault(server.handle_message(6, SupportedMessage::PublishRequest(publish), environment(1, 0))),
        (20, StatusCode(BAD_SECURE_CHANNEL_ID_INVALID))
    );
    let republish = |subscription_id: u32, number: u32| {
        SupportedMessage::RepublishRequest(RepublishRequest {
            request_header: header(&NodeId::new_numeric(9, 1), 21),
            subscription_id,
            retransmit_sequence_number: number,
        })
    };
    assert_eq!(
        fault(server.handle_message(5, republish(1, 1), environment(2, 0))),
        (21, StatusCode(BAD_SUBSCRIPTION_ID_INVALID))
    );
    // a subscription with a variable to watch
    let mut subscription = Subscription::new(1, true, 100, 100, 10, 0, 0);
    let create_item = opcua_server::service_types::monitored_item_messages::MonitoredItemCreateRequest {
        item_to_monitor: ReadValueId {
            node_id: NodeId::new_numeric(1, 1),
            attribute_id: 13,
            index_range: UAString::null(),
            data_encoding: QualifiedName::null(),
        },
        monitoring_mode: opcua_server::service_types::monitored_item_messages::MonitoringMode::Reporting,
        requested_parameters: opcua_server::service_types::monitored_item_messages::MonitoringParameters {
            client_handle: 55,
            sampling_interval: -1,
            filter: ExtensionObject::null(),
            queue_size: 1,
            discard_oldest: true,
        },
    };
    subscription
        .monitored_items
        .push(opcua_server::subscriptions::monitored_item::MonitoredItem::new(1, &create_item).unwrap());
    server.sessions.session_mut(0).subscriptions_mut().insert(subscription);
    let now = DateTime::from_ticks(3);
    let responses = {
        let Server { sessions, address_space, .. } = &mut server;
        sessions.session_mut(0).subscriptions_mut().tick(address_space, &now, &[])
    };
    assert_eq!(responses.len(), 1);
    assert_eq!(responses[0].response_header.request_handle, 20);
    assert_eq!(responses[0].notification_message.sequence_number, 1);
    match server.handle_message(5, republish(1, 1), environment(4, 0)) {
        Some(SupportedMessage::RepublishResponse(response)) => {
            assert_eq!(response.response_header.request_handle, 21);
            assert_eq!(response.response_header.service_result, StatusCode(GOOD));
            assert_eq!(response.notification_message, responses[0].notification_message);
        }
        other => panic!("no message: {:?}", other),
    }
    assert_eq!(
        fault(server.handle_message(5, republish(1, 0), environment(5, 0))),
        (21, StatusCode(BAD_MESSAGE_NOT_AVAILABLE))
    );
}

#[test]
fn from_hello_to_the_closed_channel_every_status_is_good() {
    // Hello
    let limits = ServerLimits {
        protocol_version: 0,
        receive_buffer_size: 65536,
        send_buffer_size: 65536,
        max_message_size: 1 << 20,
        max_chunk_count: 16,
    };
    let hello = HelloMessage {
        protocol_version: 0,
        receive_buffer_size: 65536,
        send_buffer_size: 65536,
        max_message_size: 1 << 20,
        max_chunk_count: 16,
        endpoint_url: UAString::from("opc.tcp://localhost:4855/"),
    };
    let acknowledge = limits.acknowledge(&hello).unwrap();
    assert_eq!(acknowledge.protocol_version, 0);

    // OpenSecureChannel(None, Issue)
    let mut service = SecureChannelService::new();
    let mut channel = SecureChannel::new(SecurityPolicy::NoPolicy);
    let open = SupportedMessage::OpenSecureChannelRequest(OpenSecureChannelRequest {
        request_header: header(&NodeId::null(), 1),
        client_protocol_version: hello.protocol_version,
        request_type: SecurityTokenRequestType::Issue,
        security_mode: MessageSecurityMode::NoSecurity,
        client_nonce: ByteString::null(),
        requested_lifetime: 60_000,
    });
    let security_header = SecurityHeader::Asymmetric(AsymmetricSecurityHeader {
        security_policy_uri: UAString::from("http://opcfoundation.org/UA/SecurityPolicy#None"),
        sender_certificate: ByteString::null(),
        receiver_certificate_thumbprint: ByteString::null(),
    });
    let opened_at = DateTime::from_ticks(900);
    let token = match service.open_secure_channel_at(
        &mut channel,
        &security_header,
        hello.protocol_version,
        &open,
        true,
        opened_at,
        vec![],
    ) {
        Ok(SupportedMessage::OpenSecureChannelResponse(response)) => {
            assert_eq!(response.response_header.service_result, StatusCode(GOOD));
            assert_eq!(response.security_token.created_at, opened_at);
            response.security_token
        }
        other => panic!("no channel: {:?}", other),
    };
    let channel_id = token.channel_id;
    assert_eq!(channel_id, channel.secure_channel_id());

    // CreateSession, ActivateSession(Anonymous), on a server with a new space
    let mut server = Server::new(state(), AddressSpace::new(), 10);
    let created = create(&mut server, channel_id, 1000, 77);
    assert_eq!(created.response_header.service_result, StatusCode(GOOD));
    let session_token = created.authentication_token;
    match activate(&mut server, channel_id, 1001, &session_token, UserIdentityToken::Anonymous) {
        SupportedMessage::ActivateSessionResponse(response) => {
            assert_eq!(response.response_header.service_result, StatusCode(GOOD));
        }
        other => panic!("not activated: {:?}", other),
    }

    // Browse(Root, max_references = 0, result_mask = 0x3F)
    match server.handle_message(channel_id, browse_root(&session_token), environment(1002, 0)) {
        Some(SupportedMessage::BrowseResponse(response)) => {
            assert_eq!(response.response_header.service_result, StatusCode(GOOD));
            let results = response.results.unwrap();
            assert_eq!(results[0].status_code, StatusCode(GOOD));
            assert!(results[0].continuation_point.is_null());
            let names: Vec<&str> = results[0]
                .references
                .as_ref()
                .unwrap()
                .iter()
                .map(|r| r.browse_name.name.as_ref())
                .collect();
            assert!(names.contains(&"Objects"));
            assert!(names.contains(&"Types"));
            assert!(names.contains(&"Views"));
        }
        other => panic!("no browse response: {:?}", other),
    }

    // Read(ns=0;i=2258) on the new space gives the time of the read
    let request = read(&session_token, Some(vec![(NodeId::new_numeric(0, 2258), 13)]));
    match server.handle_message(channel_id, SupportedMessage::ReadRequest(request), environment(1003, 0)) {
        Some(SupportedMessage::ReadResponse(response)) => {
            assert_eq!(response.response_header.service_result, StatusCode(GOOD));
            let results = response.results.unwrap();
            assert_eq!(results[0].status, Some(StatusCode(GOOD)));
            assert_eq!(results[0].value, Some(Variant::DateTime(DateTime::from_ticks(1003))));
            assert!(token.created_at.ticks() <= 1003);
        }
        other => panic!("no read response: {:?}", other),
    }

    // CloseSession
    let close = CloseSessionRequest { request_header: header(&session_token, 5), delete_subscriptions: true };
    match server.handle_message(channel_id, SupportedMessage::CloseSessionRequest(close), environment(1004, 0)) {
        Some(SupportedMessage::CloseSessionResponse(response)) => {
            assert_eq!(response.response_header.service_result, StatusCode(GOOD));
        }
        other => panic!("not closed: {:?}", other),
    }

    // CloseSecureChannel
    let close = SupportedMessage::CloseSecureChannelRequest(CloseSecureChannelRequest {
        request_header: header(&NodeId::null(), 6),
    });
    match service.close_secure_channel_at(
        &mut channel,
        &mut server.sessions,
        &close,
        DateTime::from_ticks(1005),
    ) {
        Ok(SupportedMessage::CloseSecureChannelResponse(response)) => {
            assert_eq!(response.response_header.service_result, StatusCode(GOOD));
            assert_eq!(response.response_header.request_handle, 6);
        }
        other => panic!("the channel was not closed: {:?}", other),
    }
    assert_eq!(channel.secure_channel_id(), 0);
    assert!(!channel.honours_token(token.token_id, &DateTime::from_ticks(1005)));
    assert_eq!(server.sessions.session_count(), 0);
}
