//! The session service: making, activating and ending sessions.

use crate::byte_string::ByteString;
use crate::comms::message::{SupportedMessage, SupportedMessageView};
use crate::date_time::DateTime;
use crate::guid::Guid;
use crate::node_id::{NodeId, NodeIdView};
use crate::service_types::request_header::RequestHeader;
use crate::service_types::response_header::{ResponseHeader, ResponseHeaderView};
use crate::service_types::secure_channel_messages::ServiceFault;
use crate::service_types::session_messages::{
    ActivateSessionRequest, ActivateSessionRequestView, ActivateSessionResponse,
    ActivateSessionResponseView, CloseSessionRequest, CloseSessionRequestView,
    CloseSessionResponse, CloseSessionResponseView, CreateSessionRequest,
    CreateSessionRequestView, CreateSessionResponse, CreateSessionResponseView, UserIdentityToken,
    UserIdentityTokenView,
};
use crate::services::Service;
use crate::session::SessionView;
use crate::session_manager::{
    session_position, SessionManager, SessionManagerView,
};
use crate::state::{ServerState, ServerStateView};
use crate::status_codes::{
    StatusCode, BAD_IDENTITY_TOKEN_REJECTED, BAD_SECURE_CHANNEL_ID_INVALID, BAD_SESSION_CLOSED,
    BAD_SESSION_ID_INVALID, BAD_TOO_MANY_SESSIONS, GOOD,
};
use vstd::prelude::*;

verus! {

/// After how many milliseconds without a request a session ends, where the
/// client asks for no timeout.
pub const DEFAULT_SESSION_TIMEOUT: u32 = 60_000;

/// The length of the nonce that the server sends with a session.
pub const SESSION_NONCE_LENGTH: usize = 32;

/// The timeout that a session gets: the one asked for, or the default
/// where none is asked for.
pub open spec fn revised_timeout(requested: u32) -> u32 {
    if requested == 0 {
        DEFAULT_SESSION_TIMEOUT
    } else {
        requested
    }
}

/// Whether the server takes the identity that a client shows: no user
/// where the server allows that; a user by name whose name and password
/// the server knows; a user by certificate where `certificate_valid` says
/// that the certificate is taken.
pub open spec fn identity_accepted(
    state: ServerStateView,
    token: UserIdentityTokenView,
    certificate_valid: bool,
) -> bool {
    match token {
        UserIdentityTokenView::Anonymous => state.allow_anonymous,
        UserIdentityTokenView::UserName(user, password) => password is Some && state.knows_user(
            user,
            password.unwrap(),
        ),
        UserIdentityTokenView::X509(certificate) => certificate is Some && certificate_valid,
    }
}

/// What a request for a session that arrives on the channel
/// `secure_channel_id` at the time `now` is answered with, and the sessions
/// afterwards: where there is room, a session with the authentication token
/// `token` is made, and the response names it and carries the nonce
/// `nonce` and the endpoints of the server; else the answer is a fault with
/// `BAD_TOO_MANY_SESSIONS`.
pub open spec fn is_create_session_outcome(
    state: ServerStateView,
    sessions: SessionManagerView,
    secure_channel_id: u32,
    request: CreateSessionRequestView,
    token: NodeIdView,
    nonce: Option<Seq<u8>>,
    now: DateTime,
    message: SupportedMessageView,
    sessions_after: SessionManagerView,
) -> bool {
    let handle = request.request_header.request_handle;
    let timeout = revised_timeout(request.requested_session_timeout);
    if sessions.has_room() {
        message == SupportedMessageView::CreateSessionResponse(
            CreateSessionResponseView {
                response_header: ResponseHeaderView::answering(handle, now, StatusCode(GOOD)),
                session_id: sessions.next_session_id(),
                authentication_token: token,
                revised_session_timeout: timeout,
                server_nonce: nonce,
                server_endpoints: Some(state.endpoints),
            },
        ) && sessions_after == sessions.with_new_session(secure_channel_id, token, timeout, now)
    } else {
        message == SupportedMessageView::fault(handle, now, StatusCode(BAD_TOO_MANY_SESSIONS))
            && sessions_after == sessions
    }
}

/// The status with which a request to activate a session is refused, where
/// it is refused.
pub open spec fn activation_refusal(
    state: ServerStateView,
    sessions: SessionManagerView,
    request: ActivateSessionRequestView,
    certificate_valid: bool,
    now: DateTime,
) -> Option<StatusCode> {
    match session_position(sessions.sessions, request.request_header.authentication_token) {
        None => Some(StatusCode(BAD_SESSION_ID_INVALID)),
        Some(p) => if sessions.sessions[p].is_expired(now) {
            Some(StatusCode(BAD_SESSION_CLOSED))
        } else if !identity_accepted(state, request.user_identity_token, certificate_valid) {
            Some(StatusCode(BAD_IDENTITY_TOKEN_REJECTED))
        } else {
            None
        },
    }
}

/// What a request to activate a session that arrives on the channel
/// `secure_channel_id` at the time `now` is answered with, and the sessions
/// afterwards: a fault where the session is not there, has been silent for
/// too long, or the identity is not taken; else the session is activated
/// and bound to the channel, and the response carries the nonce `nonce`.
pub open spec fn is_activate_session_outcome(
    state: ServerStateView,
    sessions: SessionManagerView,
    secure_channel_id: u32,
    request: ActivateSessionRequestView,
    certificate_valid: bool,
    nonce: Option<Seq<u8>>,
    now: DateTime,
    message: SupportedMessageView,
    sessions_after: SessionManagerView,
) -> bool {
    let handle = request.request_header.request_handle;
    match activation_refusal(state, sessions, request, certificate_valid, now) {
        Some(status) => message == SupportedMessageView::fault(handle, now, status)
            && sessions_after == sessions,
        None => {
            let p = session_position(
                sessions.sessions,
                request.request_header.authentication_token,
            ).unwrap();
            message == SupportedMessageView::ActivateSessionResponse(
                ActivateSessionResponseView {
                    response_header: ResponseHeaderView::answering(handle, now, StatusCode(GOOD)),
                    server_nonce: nonce,
                },
            ) && sessions_after == sessions.with_sessions(
                sessions.sessions.update(
                    p,
                    SessionView {
                        activated: true,
                        secure_channel_id,
                        last_activity: now,
                        ..sessions.sessions[p]
                    },
                ),
            )
        },
    }
}

/// What a request to end a session that arrives on the channel
/// `secure_channel_id` at the time `now` is answered with, and the sessions
/// afterwards: a fault where the session is not there or speaks on another
/// channel; else the session is gone, and its subscriptions and
/// continuation points with it.
pub open spec fn is_close_session_outcome(
    sessions: SessionManagerView,
    secure_channel_id: u32,
    request: CloseSessionRequestView,
    now: DateTime,
    message: SupportedMessageView,
    sessions_after: SessionManagerView,
) -> bool {
    let handle = request.request_header.request_handle;
    match session_position(sessions.sessions, request.request_header.authentication_token) {
        None => message == SupportedMessageView::fault(
            handle,
            now,
            StatusCode(BAD_SESSION_ID_INVALID),
        ) && sessions_after == sessions,
        Some(p) => if sessions.sessions[p].secure_channel_id != secure_channel_id {
            message == SupportedMessageView::fault(
                handle,
                now,
                StatusCode(BAD_SECURE_CHANNEL_ID_INVALID),
            ) && sessions_after == sessions
        } else {
            message == SupportedMessageView::CloseSessionResponse(
                CloseSessionResponseView {
                    response_header: ResponseHeaderView::answering(handle, now, StatusCode(GOOD)),
                },
            ) && sessions_after == sessions.with_sessions(sessions.sessions.remove(p))
        },
    }
}

/// Makes, activates and ends sessions.
pub struct SessionService {}

impl Service for SessionService {
    fn service_fault(&self, request_header: &RequestHeader, service_result: StatusCode) -> (r:
        SupportedMessage) {
        ServiceFault::new_supported_message(request_header, service_result)
    }
}

impl SessionService {
    /// A new `SessionService`.
    pub fn new() -> SessionService {
        SessionService {  }
    }

    /// Whether the server takes the identity that a client shows.
    pub fn is_identity_accepted(
        server_state: &ServerState,
        token: &UserIdentityToken,
        certificate_valid: bool,
    ) -> (r: bool)
        ensures
            r == identity_accepted(server_state@, token@, certificate_valid),
    {
        match token {
            UserIdentityToken::Anonymous => server_state.allow_anonymous,
            UserIdentityToken::UserName(user, password) => match &password.value {
                Some(bytes) => server_state.knows_user(user, bytes.as_slice()),
                None => false,
            },
            UserIdentityToken::X509(certificate) => !certificate.is_null() && certificate_valid,
        }
    }

    /// Answers a request for a session at the time `now`, with
    /// `authentication_token` as the secret of the session and
    /// `server_nonce` as the nonce of the server.
    pub fn create_session_at(
        &self,
        sessions: &mut SessionManager,
        server_state: &ServerState,
        secure_channel_id: u32,
        request: &CreateSessionRequest,
        authentication_token: NodeId,
        server_nonce: ByteString,
        now: DateTime,
    ) -> (r: SupportedMessage)
        ensures
            is_create_session_outcome(
                server_state@,
                old(sessions)@,
                secure_channel_id,
                request@,
                authentication_token@,
                server_nonce@,
                now,
                r@,
                final(sessions)@,
            ),
    {
        let timeout = if request.requested_session_timeout == 0 {
            DEFAULT_SESSION_TIMEOUT
        } else {
            request.requested_session_timeout
        };
        let token = authentication_token.clone();
        match sessions.create_session(secure_channel_id, authentication_token, timeout, now) {
            Ok(session_id) => SupportedMessage::CreateSessionResponse(
                CreateSessionResponse {
                    response_header: ResponseHeader::new_timestamped_service_result(
                        now,
                        &request.request_header,
                        StatusCode(GOOD),
                    ),
                    session_id,
                    authentication_token: token,
                    revised_session_timeout: timeout,
                    server_nonce,
                    server_endpoints: server_state.endpoints(&None),
                },
            ),
            Err(status) => ServiceFault::new_timestamped(now, &request.request_header, status),
        }
    }

    /// Answers a request for a session at the time of the system clock,
    /// with a random guid as the secret of the session and a random nonce.
    pub fn create_session(
        &self,
        sessions: &mut SessionManager,
        server_state: &ServerState,
        secure_channel_id: u32,
        request: &CreateSessionRequest,
    ) -> (r: SupportedMessage)
        ensures
            exists|token: NodeIdView, nonce: Option<Seq<u8>>, now: DateTime| #[trigger]
                is_create_session_outcome(
                    server_state@,
                    old(sessions)@,
                    secure_channel_id,
                    request@,
                    token,
                    nonce,
                    now,
                    r@,
                    final(sessions)@,
                ) && nonce is Some && nonce.unwrap().len() == SESSION_NONCE_LENGTH,
    {
        let now = DateTime::now();
        let token = NodeId::new_guid(0, Guid::new());
        let nonce = ByteString::random(SESSION_NONCE_LENGTH);
        self.create_session_at(
            sessions,
            server_state,
            secure_channel_id,
            request,
            token,
            nonce,
            now,
        )
    }

    /// Answers a request to activate a session at the time `now`, with
    /// `server_nonce` as the nonce of the server. `certificate_valid` says
    /// whether a certificate that the client shows as its identity is
    /// taken.
    pub fn activate_session_at(
        &self,
        sessions: &mut SessionManager,
        server_state: &ServerState,
        secure_channel_id: u32,
        request: &ActivateSessionRequest,
        certificate_valid: bool,
        server_nonce: ByteString,
        now: DateTime,
    ) -> (r: SupportedMessage)
        ensures
            is_activate_session_outcome(
                server_state@,
                old(sessions)@,
                secure_channel_id,
                request@,
                certificate_valid,
                server_nonce@,
                now,
                r@,
                final(sessions)@,
            ),
    {
        let accepted = Self::is_identity_accepted(
            server_state,
            &request.user_identity_token,
            certificate_valid,
        );
        match sessions.activate_session(
            &request.request_header.authentication_token,
            secure_channel_id,
            accepted,
            now,
        ) {
            Ok(()) => SupportedMessage::ActivateSessionResponse(
                ActivateSessionResponse {
                    response_header: ResponseHeader::new_timestamped_service_result(
                        now,
                        &request.request_header,
                        StatusCode(GOOD),
                    ),
                    server_nonce,
                },
            ),
            Err(status) => ServiceFault::new_timestamped(now, &request.request_header, status),
        }
    }

    /// Answers a request to end a session at the time `now`.
    pub fn close_session_at(
        &self,
        sessions: &mut SessionManager,
        secure_channel_id: u32,
        request: &CloseSessionRequest,
        now: DateTime,
    ) -> (r: SupportedMessage)
        ensures
            is_close_session_outcome(
                old(sessions)@,
                secure_channel_id,
                request@,
                now,
                r@,
                final(sessions)@,
            ),
    {
        match sessions.close_session(
            &request.request_header.authentication_token,
            secure_channel_id,
        ) {
            Ok(_) => SupportedMessage::CloseSessionResponse(
                CloseSessionResponse {
                    response_header: ResponseHeader::new_timestamped_service_result(
                        now,
                        &request.request_header,
                        StatusCode(GOOD),
                    ),
                },
            ),
            Err(status) => ServiceFault::new_timestamped(now, &request.request_header, status),
        }
    }
}

} // verus!
