use opcua_server::basic_types::ExtensionObject;
use opcua_server::byte_string::ByteString;
use opcua_server::comms::message::SupportedMessage;
use opcua_server::comms::secure_channel::{KeySeed, SecureChannel, SecurityPolicy};
use opcua_server::comms::secure_channel_service::{SecureChannelService, SecureChannelState};
use opcua_server::comms::security_header::{
    AsymmetricSecurityHeader, SecurityHeader, SymmetricSecurityHeader,
};
use opcua_server::date_time::DateTime;
use opcua_server::node_id::NodeId;
use opcua_server::service_types::request_header::RequestHeader;
use opcua_server::session_manager::SessionManager;
use opcua_server::service_types::secure_channel_messages::{
    CloseSecureChannelRequest, MessageSecurityMode, OpenSecureChannelRequest,
    OpenSecureChannelResponse, SecurityTokenRequestType,
};
use opcua_server::status_codes::{
    StatusCode, BAD_CERTIFICATE_INVALID, BAD_NONCE_INVALID,
    BAD_PROTOCOL_VERSION_UNSUPPORTED, BAD_SECURITY_MODE_REJECTED, BAD_UNEXPECTED_ERROR, GOOD,
};
use opcua_server::string::UAString;

fn header(handle: u32) -> RequestHeader {
    RequestHeader {
        authentication_token: NodeId::null(),
        timestamp: DateTime::from_ticks(1),
        request_handle: handle,
        return_diagnostics: 0,
        audit_entry_id: UAString::null(),
        timeout_hint: 0,
        additional_header: ExtensionObject::null(),
    }
}

fn request(
    request_type: SecurityTokenRequestType,
    security_mode: MessageSecurityMode,
    nonce: ByteString,
) -> SupportedMessage {
    SupportedMessage::OpenSecureChannelRequest(OpenSecureChannelRequest {
        request_header: header(42),
        client_protocol_version: 0,
        request_type,
        security_mode,
        client_nonce: nonce,
        requested_lifetime: 60_000,
    })
}

fn issue() -> SupportedMessage {
    request(SecurityTokenRequestType::Issue, MessageSecurityMode::NoSecurity, ByteString::null())
}

fn asymmetric(certificate: ByteString) -> SecurityHeader {
    SecurityHeader::Asymmetric(AsymmetricSecurityHeader {
        security_policy_uri: UAString::from("http://opcfoundation.org/UA/SecurityPolicy#None"),
        sender_certificate: certificate,
        receiver_certificate_thumbprint: ByteString::null(),
    })
}

fn plain() -> SecurityHeader {
    asymmetric(ByteString::null())
}

fn granted(result: Result<SupportedMessage, StatusCode>) -> OpenSecureChannelResponse {
    match result {
        Ok(SupportedMessage::OpenSecureChannelResponse(response)) => response,
        other => panic!("no token was granted: {:?}", other),
    }
}

fn fault_status(result: Result<SupportedMessage, StatusCode>) -> StatusCode {
    match result {
        Ok(SupportedMessage::ServiceFault(fault)) => {
            assert_eq!(fault.response_header.request_handle, 42);
            fault.response_header.service_result
        }
        other => panic!("no fault: {:?}", other),
    }
}

#[test]
fn state_gives_out_ids_in_order() {
    let mut state = SecureChannelState::new();
    assert_eq!(state.issued, false);
    assert_eq!(state.renew_count, 0);
    assert!(state.has_room());
    assert_eq!(state.create_secure_channel_id(), 1);
    assert_eq!(state.create_secure_channel_id(), 2);
    assert_eq!(state.create_token_id(), 1);
    assert_eq!(state.last_secure_channel_id, 2);
    assert_eq!(state.last_token_id, 1);
    state.last_token_id = u32::MAX;
    assert!(!state.has_room());
}

#[test]
fn issue_grants_the_first_ids() {
    let mut service = SecureChannelService::new();
    let mut channel = SecureChannel::new(SecurityPolicy::NoPolicy);
    let now = DateTime::from_ticks(1000);
    let result = service.open_secure_channel_at(
        &mut channel,
        &plain(),
        0,
        &issue(),
        true,
        now,
        vec![7; 32],
    );
    let response = granted(result);
    assert_eq!(response.response_header.request_handle, 42);
    assert_eq!(response.response_header.service_result, StatusCode(GOOD));
    assert_eq!(response.response_header.timestamp, now);
    assert_eq!(response.server_protocol_version, 0);
    assert_eq!(response.security_token.channel_id, 1);
    assert_eq!(response.security_token.token_id, 1);
    assert_eq!(response.security_token.created_at, now);
    assert_eq!(response.security_token.revised_lifetime, 60_000);
    assert_eq!(response.server_nonce, ByteString::from(vec![7; 32]));
    assert_eq!(channel.secure_channel_id(), 1);
    assert_eq!(channel.token_id(), 1);
    assert_eq!(channel.previous_token_id(), None);
    assert_eq!(channel.security_mode(), MessageSecurityMode::NoSecurity);
    assert_eq!(channel.token_created_at(), now);
    assert_eq!(channel.token_lifetime(), 60_000);
    assert_eq!(channel.local_nonce(), &[7u8; 32][..]);
    assert_eq!(channel.remote_nonce().len(), 0);
    assert_eq!(channel.remote_cert(), None);
    assert_eq!(channel.key_seed(), &None);
    assert!(service.state().issued);
    assert_eq!(service.state().renew_count, 0);
}

#[test]
fn sequential_issues_get_increasing_ids() {
    let mut service = SecureChannelService::new();
    let mut last_channel_id = 0;
    let mut last_token_id = 0;
    for _ in 0..5 {
        let mut channel = SecureChannel::new(SecurityPolicy::NoPolicy);
        let response =
            granted(service.open_secure_channel(&mut channel, &plain(), 0, &issue(), true));
        assert!(response.security_token.channel_id > last_channel_id);
        assert!(response.security_token.token_id > last_token_id);
        last_channel_id = response.security_token.channel_id;
        last_token_id = response.security_token.token_id;
        assert_eq!(channel.local_nonce().len(), 32);
        assert_eq!(response.server_nonce.as_ref(), channel.local_nonce());
    }
    assert_eq!(last_channel_id, 5);
    assert_eq!(last_token_id, 5);
}

#[test]
fn renew_keeps_the_channel_and_changes_the_token() {
    let mut service = SecureChannelService::new();
    let mut channel = SecureChannel::new(SecurityPolicy::NoPolicy);
    let first = request(
        SecurityTokenRequestType::Issue,
        MessageSecurityMode::NoSecurity,
        ByteString::from(vec![1, 2, 3]),
    );
    granted(service.open_secure_channel(&mut channel, &plain(), 0, &first, true));
    assert_eq!(channel.remote_nonce(), &[1u8, 2, 3][..]);
    let renew = request(
        SecurityTokenRequestType::Renew,
        MessageSecurityMode::NoSecurity,
        ByteString::from(vec![4, 5, 6]),
    );
    let response = granted(service.open_secure_channel(&mut channel, &plain(), 0, &renew, true));
    assert_eq!(response.security_token.channel_id, 1);
    assert_eq!(response.security_token.token_id, 2);
    assert_eq!(channel.secure_channel_id(), 1);
    assert_eq!(channel.token_id(), 2);
    assert_eq!(channel.previous_token_id(), Some(1));
    assert_eq!(channel.remote_nonce(), &[4u8, 5, 6][..]);
    assert_eq!(service.state().renew_count, 1);
    assert_eq!(service.state().last_secure_channel_id, 1);
    assert_eq!(service.state().last_token_id, 2);
}

#[test]
fn renew_with_the_old_nonce_is_refused() {
    let mut service = SecureChannelService::new();
    let mut channel = SecureChannel::new(SecurityPolicy::NoPolicy);
    let first = request(
        SecurityTokenRequestType::Issue,
        MessageSecurityMode::NoSecurity,
        ByteString::from(vec![1, 2, 3]),
    );
    granted(service.open_secure_channel(&mut channel, &plain(), 0, &first, true));
    let before = channel.clone();
    let state = service.state();
    let renew = request(
        SecurityTokenRequestType::Renew,
        MessageSecurityMode::NoSecurity,
        ByteString::from(vec![1, 2, 3]),
    );
    let result = service.open_secure_channel(&mut channel, &plain(), 0, &renew, true);
    assert_eq!(fault_status(result), StatusCode(BAD_NONCE_INVALID));
    assert_eq!(channel, before);
    assert_eq!(service.state(), state);
}

#[test]
fn renew_without_issue_is_an_unexpected_error() {
    let mut service = SecureChannelService::new();
    let mut channel = SecureChannel::new(SecurityPolicy::NoPolicy);
    let renew = request(
        SecurityTokenRequestType::Renew,
        MessageSecurityMode::NoSecurity,
        ByteString::from(vec![1]),
    );
    let result = service.open_secure_channel(&mut channel, &plain(), 0, &renew, true);
    assert_eq!(result, Err(StatusCode(BAD_UNEXPECTED_ERROR)));
    assert_eq!(channel, SecureChannel::new(SecurityPolicy::NoPolicy));
    assert_eq!(service.state(), SecureChannelState::new());
    // with the nonce that the fresh channel holds, which is none, the nonce is judged first
    let renew = request(
        SecurityTokenRequestType::Renew,
        MessageSecurityMode::NoSecurity,
        ByteString::null(),
    );
    let result = service.open_secure_channel(&mut channel, &plain(), 0, &renew, true);
    assert_eq!(fault_status(result), StatusCode(BAD_NONCE_INVALID));
}

#[test]
fn other_protocol_version_is_refused_and_the_channel_stays() {
    let mut service = SecureChannelService::new();
    let mut channel = SecureChannel::new(SecurityPolicy::NoPolicy);
    granted(service.open_secure_channel(&mut channel, &plain(), 0, &issue(), true));
    let before = channel.clone();
    let state = service.state();
    // the Hello said version 1, the request says 0
    let result = service.open_secure_channel(&mut channel, &plain(), 1, &issue(), true);
    assert_eq!(fault_status(result), StatusCode(BAD_PROTOCOL_VERSION_UNSUPPORTED));
    assert_eq!(channel, before);
    assert_eq!(service.state(), state);
}

#[test]
fn invalid_security_mode_is_rejected() {
    let mut service = SecureChannelService::new();
    let mut channel = SecureChannel::new(SecurityPolicy::NoPolicy);
    let message = request(
        SecurityTokenRequestType::Issue,
        MessageSecurityMode::Invalid,
        ByteString::null(),
    );
    let result = service.open_secure_channel(&mut channel, &plain(), 0, &message, true);
    assert_eq!(fault_status(result), StatusCode(BAD_SECURITY_MODE_REJECTED));
    assert_eq!(channel, SecureChannel::new(SecurityPolicy::NoPolicy));
    assert!(!service.state().issued);
}

#[test]
fn other_messages_and_headers_are_unexpected() {
    let mut service = SecureChannelService::new();
    let mut channel = SecureChannel::new(SecurityPolicy::NoPolicy);
    let close = SupportedMessage::CloseSecureChannelRequest(CloseSecureChannelRequest {
        request_header: header(1),
    });
    let result = service.open_secure_channel(&mut channel, &plain(), 0, &close, true);
    assert_eq!(result, Err(StatusCode(BAD_UNEXPECTED_ERROR)));
    let symmetric = SecurityHeader::Symmetric(SymmetricSecurityHeader { token_id: 1 });
    let result = service.open_secure_channel(&mut channel, &symmetric, 0, &issue(), true);
    assert_eq!(result, Err(StatusCode(BAD_UNEXPECTED_ERROR)));
    assert_eq!(service.state(), SecureChannelState::new());
}

#[test]
fn invalid_certificate_is_an_error_after_the_token_was_made() {
    let mut service = SecureChannelService::new();
    let mut channel = SecureChannel::new(SecurityPolicy::NoPolicy);
    let with_cert = asymmetric(ByteString::from(vec![0x30, 0x82]));
    let result = service.open_secure_channel(&mut channel, &with_cert, 0, &issue(), false);
    assert_eq!(result, Err(StatusCode(BAD_CERTIFICATE_INVALID)));
    assert_eq!(channel.token_id(), 1);
    assert_eq!(channel.remote_cert(), None);
    assert!(service.state().issued);
    // a valid one is kept
    let response = granted(service.open_secure_channel(&mut channel, &with_cert, 0, &issue(), true));
    assert_eq!(response.security_token.token_id, 2);
    assert_eq!(channel.remote_cert(), Some(&[0x30u8, 0x82][..]));
}

#[test]
fn secure_policy_wants_a_nonce_of_its_length_and_derives_keys() {
    let mut service = SecureChannelService::new();
    let mut channel = SecureChannel::new(SecurityPolicy::Basic128Rsa15);
    let short = request(
        SecurityTokenRequestType::Issue,
        MessageSecurityMode::SignAndEncrypt,
        ByteString::from(vec![1; 15]),
    );
    let result = service.open_secure_channel(&mut channel, &plain(), 0, &short, true);
    assert_eq!(fault_status(result), StatusCode(BAD_NONCE_INVALID));
    let none = request(
        SecurityTokenRequestType::Issue,
        MessageSecurityMode::Sign,
        ByteString::null(),
    );
    let result = service.open_secure_channel(&mut channel, &plain(), 0, &none, true);
    assert_eq!(fault_status(result), StatusCode(BAD_NONCE_INVALID));
    let right = request(
        SecurityTokenRequestType::Issue,
        MessageSecurityMode::SignAndEncrypt,
        ByteString::from(vec![1; 16]),
    );
    let response = granted(service.open_secure_channel_at(
        &mut channel,
        &plain(),
        0,
        &right,
        true,
        DateTime::from_ticks(5),
        vec![2; 16],
    ));
    assert_eq!(response.security_token.token_id, 3);
    assert_eq!(
        channel.key_seed(),
        &Some(KeySeed { remote_nonce: vec![1; 16], local_nonce: vec![2; 16] })
    );
    // a random nonce has the length of the policy
    let again = request(
        SecurityTokenRequestType::Renew,
        MessageSecurityMode::Sign,
        ByteString::from(vec![3; 16]),
    );
    granted(service.open_secure_channel(&mut channel, &plain(), 0, &again, true));
    assert_eq!(channel.local_nonce().len(), 16);
}

#[test]
fn no_keys_without_signing() {
    let mut service = SecureChannelService::new();
    let mut channel = SecureChannel::new(SecurityPolicy::Basic256);
    let message = request(
        SecurityTokenRequestType::Issue,
        MessageSecurityMode::NoSecurity,
        ByteString::from(vec![1; 32]),
    );
    granted(service.open_secure_channel(&mut channel, &plain(), 0, &message, true));
    assert_eq!(channel.key_seed(), &None);
}

#[test]
fn close_ends_the_channel_and_its_sessions() {
    let mut service = SecureChannelService::new();
    let mut channel = SecureChannel::new(SecurityPolicy::NoPolicy);
    let start = DateTime::from_ticks(1_000_000_000);
    granted(service.open_secure_channel_at(&mut channel, &plain(), 0, &issue(), true, start, vec![]));
    assert_eq!(channel.secure_channel_id(), 1);
    assert!(channel.honours_token(1, &start));

    let mut sessions = SessionManager::new(10);
    sessions.create_session(1, NodeId::new_numeric(1, 100), 60_000, start).unwrap();
    sessions.create_session(9, NodeId::new_numeric(1, 101), 60_000, start).unwrap();
    sessions.create_session(1, NodeId::new_numeric(1, 102), 60_000, start).unwrap();
    assert_eq!(sessions.session_count(), 3);

    // Anything but a request to close is an error and changes nothing.
    assert_eq!(
        service.close_secure_channel(&mut channel, &mut sessions, &issue()),
        Err(StatusCode(BAD_UNEXPECTED_ERROR))
    );
    assert_eq!(channel.secure_channel_id(), 1);
    assert_eq!(sessions.session_count(), 3);

    let close = SupportedMessage::CloseSecureChannelRequest(CloseSecureChannelRequest {
        request_header: header(7),
    });
    let later = DateTime::from_ticks(1_000_000_500);
    match service.close_secure_channel_at(&mut channel, &mut sessions, &close, later) {
        Ok(SupportedMessage::CloseSecureChannelResponse(response)) => {
            assert_eq!(response.response_header.request_handle, 7);
            assert_eq!(response.response_header.service_result, StatusCode(GOOD));
            assert_eq!(response.response_header.timestamp, later);
        }
        other => panic!("the channel was not closed: {:?}", other),
    }
    assert_eq!(channel, SecureChannel::new(SecurityPolicy::NoPolicy));
    assert!(!channel.honours_token(1, &start));
    assert_eq!(sessions.session_count(), 1);
    assert_eq!(sessions.find(&NodeId::new_numeric(1, 101)), Some(0));
    assert_eq!(sessions.find(&NodeId::new_numeric(1, 100)), None);
    assert_eq!(sessions.find(&NodeId::new_numeric(1, 102)), None);

    // The ids that were given out stay given out.
    let again = granted(service.open_secure_channel(&mut channel, &plain(), 0, &issue(), true));
    assert_eq!(again.security_token.channel_id, 2);
    assert_eq!(again.security_token.token_id, 2);

    // With the clock, the answer is the same but for its time.
    match service.close_secure_channel(&mut channel, &mut sessions, &close) {
        Ok(SupportedMessage::CloseSecureChannelResponse(response)) => {
            assert_eq!(response.response_header.service_result, StatusCode(GOOD));
        }
        other => panic!("the channel was not closed: {:?}", other),
    }
    assert_eq!(sessions.session_count(), 1);
}

#[test]
fn channel_setters_and_policy_lengths() {
    let mut channel = SecureChannel::new(SecurityPolicy::Unknown);
    channel.set_security_policy(SecurityPolicy::Basic256Sha256);
    assert_eq!(channel.security_policy(), SecurityPolicy::Basic256Sha256);
    channel.create_random_nonce();
    assert_eq!(channel.local_nonce().len(), 32);
    assert_eq!(channel.local_nonce_as_byte_string().as_ref().len(), 32);
    assert_eq!(SecureChannel::new(SecurityPolicy::NoPolicy).local_nonce_as_byte_string(), ByteString::null());
    assert_eq!(SecurityPolicy::Basic128Rsa15.nonce_length(), 16);
    assert_eq!(SecurityPolicy::NoPolicy.nonce_length(), 32);
    assert_eq!(SecurityPolicy::Basic128Rsa15.symmetric_key_size(), 16);
    assert_eq!(SecurityPolicy::Basic256.symmetric_key_size(), 32);
    assert_eq!(SecurityPolicy::NoPolicy.symmetric_key_size(), 0);
    assert!(SecurityPolicy::Basic256.is_secure());
    assert!(!SecurityPolicy::NoPolicy.is_secure());
    assert_eq!(
        channel.set_remote_nonce_from_byte_string(&ByteString::from(vec![1; 31])),
        Err(StatusCode(BAD_NONCE_INVALID))
    );
    assert_eq!(channel.set_remote_nonce_from_byte_string(&ByteString::from(vec![1; 32])), Ok(()));
    assert_eq!(
        channel.set_remote_cert_from_byte_string(&ByteString::from(vec![1]), false),
        Err(StatusCode(BAD_CERTIFICATE_INVALID))
    );
    assert_eq!(channel.set_remote_cert_from_byte_string(&ByteString::null(), false), Ok(()));
}

#[test]
fn tokens_are_honoured_for_their_lifetime_and_a_quarter() {
    let mut service = SecureChannelService::new();
    let mut channel = SecureChannel::new(SecurityPolicy::NoPolicy);
    let start = DateTime::from_ticks(1_000_000_000);
    assert!(!channel.honours_token(0, &start));
    let first = request(
        SecurityTokenRequestType::Issue,
        MessageSecurityMode::NoSecurity,
        ByteString::from(vec![1, 2, 3]),
    );
    granted(service.open_secure_channel_at(&mut channel, &plain(), 0, &first, true, start, vec![]));
    // 60 000 ms and a quarter are 75 000 ms, of 10 000 ticks each.
    let end = DateTime::from_ticks(1_000_000_000 + 750_000_000);
    let before_end = DateTime::from_ticks(1_000_000_000 + 749_999_999);
    let after_lifetime = DateTime::from_ticks(1_000_000_000 + 600_000_000);
    assert!(channel.honours_token(1, &start));
    assert!(channel.honours_token(1, &after_lifetime));
    assert!(channel.honours_token(1, &before_end));
    assert!(!channel.honours_token(1, &end));
    assert!(!channel.honours_token(2, &start));
    assert!(!channel.honours_token(0, &start));
    assert!(!channel.token_has_expired(&before_end));
    assert!(channel.token_has_expired(&end));

    let later = DateTime::from_ticks(1_000_000_000 + 500_000_000);
    let renew = request(
        SecurityTokenRequestType::Renew,
        MessageSecurityMode::NoSecurity,
        ByteString::from(vec![4, 5, 6]),
    );
    granted(service.open_secure_channel_at(&mut channel, &plain(), 0, &renew, true, later, vec![]));
    assert_eq!(channel.token_id(), 2);
    assert_eq!(channel.previous_token_id(), Some(1));
    // The old token lives on to its own end, the new one to its own.
    assert!(channel.honours_token(1, &before_end));
    assert!(!channel.honours_token(1, &end));
    assert!(channel.honours_token(2, &end));
    assert!(channel.honours_token(2, &DateTime::from_ticks(1_500_000_000 + 749_999_999)));
    assert!(!channel.honours_token(2, &DateTime::from_ticks(1_500_000_000 + 750_000_000)));
    assert!(!channel.honours_token(3, &later));

    // A new issue forgets the token before.
    granted(service.open_secure_channel_at(&mut channel, &plain(), 0, &first, true, later, vec![]));
    assert_eq!(channel.token_id(), 3);
    assert_eq!(channel.previous_token_id(), None);
    assert!(!channel.honours_token(2, &later));
    assert!(channel.honours_token(3, &later));
}
