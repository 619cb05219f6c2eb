//! The server as a whole: its state, its address space and its sessions,
//! and the routing of requests to the services.

use crate::address_space::{AddressSpace, AddressSpaceView};
use crate::byte_string::ByteString;
use crate::comms::message::{SupportedMessage, SupportedMessageView};
use crate::date_time::DateTime;
use crate::node_id::{NodeId, NodeIdView};
use crate::service_types::request_header::{RequestHeader, RequestHeaderView};
use crate::service_types::secure_channel_messages::ServiceFault;
use crate::services::attribute::{is_read_outcome, AttributeService};
use crate::services::discovery::{is_get_endpoints_outcome, DiscoveryService};
use crate::services::session::{
    is_activate_session_outcome, is_close_session_outcome, is_create_session_outcome,
    SessionService,
};
use crate::services::subscription::{republish_outcome, SubscriptionService};
use crate::services::view::{
    is_browse_next_outcome, is_browse_outcome, is_translate_outcome, ViewService,
};
use crate::session::SessionView;
use crate::session_manager::{
    request_status, session_position, SessionManager, SessionManagerView,
};
use crate::state::{ServerState, ServerStateView};
use crate::status_codes::{StatusCode, BAD_SERVICE_UNSUPPORTED, BAD_SESSION_ID_INVALID};
use crate::subscriptions::subscriptions::after_publish_request;
use vstd::prelude::*;

verus! {

/// The server: what it knows of itself, its nodes, and its sessions.
pub struct Server {
    /// What the server knows of itself.
    pub state: ServerState,
    /// The nodes of the server.
    pub address_space: AddressSpace,
    /// The sessions of the server.
    pub sessions: SessionManager,
}

/// The value that a `Server` stands for.
pub struct ServerView {
    pub state: ServerStateView,
    pub address_space: AddressSpaceView,
    pub sessions: SessionManagerView,
}

impl DeepView for Server {
    type V = ServerView;

    open spec fn deep_view(&self) -> ServerView {
        ServerView {
            state: self.state@,
            address_space: self.address_space@,
            sessions: self.sessions@,
        }
    }
}

impl View for Server {
    type V = ServerView;

    open spec fn view(&self) -> ServerView {
        self.deep_view()
    }
}

/// What the world around the server brings to a request: the time, the
/// verdict on a certificate that the request carries, and fresh secrets.
pub struct Environment {
    /// The time at which the request is answered.
    pub now: DateTime,
    /// Whether a certificate that the request carries is taken.
    pub certificate_valid: bool,
    /// A fresh secret for a session that the request may ask for.
    pub authentication_token: NodeId,
    /// A fresh nonce of the server.
    pub server_nonce: ByteString,
}

/// The value that an `Environment` stands for.
pub struct EnvironmentView {
    pub now: DateTime,
    pub certificate_valid: bool,
    pub authentication_token: NodeIdView,
    pub server_nonce: Option<Seq<u8>>,
}

impl DeepView for Environment {
    type V = EnvironmentView;

    open spec fn deep_view(&self) -> EnvironmentView {
        EnvironmentView {
            now: self.now,
            certificate_valid: self.certificate_valid,
            authentication_token: self.authentication_token@,
            server_nonce: self.server_nonce@,
        }
    }
}

impl View for Environment {
    type V = EnvironmentView;

    open spec fn view(&self) -> EnvironmentView {
        self.deep_view()
    }
}

/// The position of the session that a request names, or the status with
/// which the request is refused: the session must be there, must speak on
/// the channel of the request, must not have been silent for longer than
/// its timeout, and must be activated.
pub open spec fn judged(
    sessions: SessionManagerView,
    header: RequestHeaderView,
    secure_channel_id: u32,
    now: DateTime,
) -> Result<int, StatusCode> {
    match session_position(sessions.sessions, header.authentication_token) {
        None => Err(StatusCode(BAD_SESSION_ID_INVALID)),
        Some(p) => match request_status(sessions.sessions[p], secure_channel_id, now) {
            Some(status) => Err(status),
            None => Ok(p),
        },
    }
}

/// Whether a request with the header `header` is refused for its session,
/// by a fault that names why, and nothing changes.
pub open spec fn is_refused(
    server: ServerView,
    header: RequestHeaderView,
    secure_channel_id: u32,
    now: DateTime,
    response: Option<SupportedMessageView>,
    after: ServerView,
) -> bool {
    judged(server.sessions, header, secure_channel_id, now) matches Err(status) && response
        == Some(SupportedMessageView::fault(header.request_handle, now, status)) && after
        == server
}

/// Whether `after` is `server` but for the session at position `p`, which
/// has had a request at the time `now` and of which otherwise at most the
/// continuation points and the subscriptions have changed.
pub open spec fn is_served(server: ServerView, p: int, now: DateTime, after: ServerView) -> bool {
    &&& 0 <= p < server.sessions.sessions.len()
    &&& after == (ServerView {
        sessions: server.sessions.with_sessions(
            server.sessions.sessions.update(p, after.sessions.sessions[p]),
        ),
        ..server
    })
    &&& after.sessions.sessions[p] == (SessionView {
        last_activity: now,
        browse_continuation_points: after.sessions.sessions[p].browse_continuation_points,
        subscriptions: after.sessions.sessions[p].subscriptions,
        ..server.sessions.sessions[p]
    })
}

/// The handle of the request that a message carries; 0 for a message that
/// is no request.
pub open spec fn request_handle_of(message: SupportedMessageView) -> u32 {
    match message {
        SupportedMessageView::OpenSecureChannelRequest(m) => m.request_header.request_handle,
        SupportedMessageView::CloseSecureChannelRequest(m) => m.request_header.request_handle,
        SupportedMessageView::GetEndpointsRequest(m) => m.request_header.request_handle,
        SupportedMessageView::BrowseRequest(m) => m.request_header.request_handle,
        SupportedMessageView::BrowseNextRequest(m) => m.request_header.request_handle,
        SupportedMessageView::TranslateBrowsePathsToNodeIdsRequest(m) => m.request_header.request_handle,
        SupportedMessageView::QueryNextRequest(m) => m.request_header.request_handle,
        SupportedMessageView::ModifySubscriptionRequest(m) => m.request_header.request_handle,
        SupportedMessageView::PublishRequest(m) => m.request_header.request_handle,
        SupportedMessageView::CreateSessionRequest(m) => m.request_header.request_handle,
        SupportedMessageView::ActivateSessionRequest(m) => m.request_header.request_handle,
        SupportedMessageView::CloseSessionRequest(m) => m.request_header.request_handle,
        SupportedMessageView::ReadRequest(m) => m.request_header.request_handle,
        SupportedMessageView::RepublishRequest(m) => m.request_header.request_handle,
        _ => 0,
    }
}

/// What a message that arrives on the channel `secure_channel_id` leads
/// to: the response, if one is sent at once, and the server afterwards.
///
/// A request for the endpoints needs no session. Requests for a session,
/// to activate and to end one go to the session service. A request to
/// browse, to go on browsing, to resolve paths, to read, to publish or to
/// republish needs an activated session on the channel, and is refused
/// without one; else it goes to its service, and the session has had a
/// request. A publish request is not answered at once. Every other message
/// is answered by a fault with `BAD_SERVICE_UNSUPPORTED`.
pub open spec fn is_handled(
    server: ServerView,
    secure_channel_id: u32,
    message: SupportedMessageView,
    environment: EnvironmentView,
    response: Option<SupportedMessageView>,
    after: ServerView,
) -> bool {
    let now = environment.now;
    match message {
        SupportedMessageView::GetEndpointsRequest(request) => response is Some
            && is_get_endpoints_outcome(server.state, request, response.unwrap()) && after
            == server,
        SupportedMessageView::CreateSessionRequest(request) => response is Some
            && is_create_session_outcome(
            server.state,
            server.sessions,
            secure_channel_id,
            request,
            environment.authentication_token,
            environment.server_nonce,
            now,
            response.unwrap(),
            after.sessions,
        ) && after == (ServerView { sessions: after.sessions, ..server }),
        SupportedMessageView::ActivateSessionRequest(request) => response is Some
            && is_activate_session_outcome(
            server.state,
            server.sessions,
            secure_channel_id,
            request,
            environment.certificate_valid,
            environment.server_nonce,
            now,
            response.unwrap(),
            after.sessions,
        ) && after == (ServerView { sessions: after.sessions, ..server }),
        SupportedMessageView::CloseSessionRequest(request) => response is Some
            && is_close_session_outcome(
            server.sessions,
            secure_channel_id,
            request,
            now,
            response.unwrap(),
            after.sessions,
        ) && after == (ServerView { sessions: after.sessions, ..server }),
        SupportedMessageView::BrowseRequest(request) => match judged(
            server.sessions,
            request.request_header,
            secure_channel_id,
            now,
        ) {
            Err(_) => is_refused(
                server,
                request.request_header,
                secure_channel_id,
                now,
                response,
                after,
            ),
            Ok(p) => is_served(server, p, now, after) && response is Some && is_browse_outcome(
                server.address_space,
                now,
                server.sessions.sessions[p].browse_continuation_points,
                request,
                response.unwrap(),
                after.sessions.sessions[p].browse_continuation_points,
            ) && after.sessions.sessions[p].subscriptions
                == server.sessions.sessions[p].subscriptions,
        },
        SupportedMessageView::BrowseNextRequest(request) => match judged(
            server.sessions,
            request.request_header,
            secure_channel_id,
            now,
        ) {
            Err(_) => is_refused(
                server,
                request.request_header,
                secure_channel_id,
                now,
                response,
                after,
            ),
            Ok(p) => is_served(server, p, now, after) && response is Some
                && is_browse_next_outcome(
                (SessionView { last_activity: now, ..server.sessions.sessions[p] }).moment(
                    server.address_space.last_modified,
                ),
                server.sessions.sessions[p].browse_continuation_points,
                request,
                response.unwrap(),
                after.sessions.sessions[p].browse_continuation_points,
            ) && after.sessions.sessions[p].subscriptions
                == server.sessions.sessions[p].subscriptions,
        },
        SupportedMessageView::TranslateBrowsePathsToNodeIdsRequest(request) => match judged(
            server.sessions,
            request.request_header,
            secure_channel_id,
            now,
        ) {
            Err(_) => is_refused(
                server,
                request.request_header,
                secure_channel_id,
                now,
                response,
                after,
            ),
            Ok(p) => is_served(server, p, now, after) && response is Some && is_translate_outcome(
                server.address_space,
                request,
                response.unwrap(),
            ) && after.sessions.sessions[p] == (SessionView {
                last_activity: now,
                ..server.sessions.sessions[p]
            }),
        },
        SupportedMessageView::ReadRequest(request) => match judged(
            server.sessions,
            request.request_header,
            secure_channel_id,
            now,
        ) {
            Err(_) => is_refused(
                server,
                request.request_header,
                secure_channel_id,
                now,
                response,
                after,
            ),
            Ok(p) => is_served(server, p, now, after) && response is Some && is_read_outcome(
                server.address_space,
                request,
                now,
                response.unwrap(),
            ) && after.sessions.sessions[p] == (SessionView {
                last_activity: now,
                ..server.sessions.sessions[p]
            }),
        },
        SupportedMessageView::PublishRequest(request) => match judged(
            server.sessions,
            request.request_header,
            secure_channel_id,
            now,
        ) {
            Err(_) => is_refused(
                server,
                request.request_header,
                secure_channel_id,
                now,
                response,
                after,
            ),
            Ok(p) => is_served(server, p, now, after) && response is None
                && after.sessions.sessions[p] == (SessionView {
                last_activity: now,
                subscriptions: after_publish_request(
                    server.sessions.sessions[p].subscriptions,
                    request,
                ),
                ..server.sessions.sessions[p]
            }),
        },
        SupportedMessageView::RepublishRequest(request) => match judged(
            server.sessions,
            request.request_header,
            secure_channel_id,
            now,
        ) {
            Err(_) => is_refused(
                server,
                request.request_header,
                secure_channel_id,
                now,
                response,
                after,
            ),
            Ok(p) => is_served(server, p, now, after) && response == Some(
                republish_outcome(server.sessions.sessions[p].subscriptions, request, now),
            ) && after.sessions.sessions[p] == (SessionView {
                last_activity: now,
                ..server.sessions.sessions[p]
            }),
        },
        _ => response == Some(
            SupportedMessageView::fault(
                request_handle_of(message),
                now,
                StatusCode(BAD_SERVICE_UNSUPPORTED),
            ),
        ) && after == server,
    }
}

impl Server {
    /// A server with the given state and address space, which holds at most
    /// `max_sessions` sessions and has none.
    pub fn new(state: ServerState, address_space: AddressSpace, max_sessions: usize) -> (r: Server)
        ensures
            r@ == (ServerView {
                state: state@,
                address_space: address_space@,
                sessions: SessionManagerView {
                    sessions: Seq::empty(),
                    max_sessions,
                    last_session_number: 0,
                },
            }),
    {
        Server { state, address_space, sessions: SessionManager::new(max_sessions) }
    }

    /// The fault that refuses a request for its session.
    fn refuse(header: &RequestHeader, status: StatusCode, now: DateTime) -> (r: Option<
        SupportedMessage,
    >)
        ensures
            r.deep_view() == Some(SupportedMessageView::fault(header@.request_handle, now, status)),
    {
        Some(ServiceFault::new_timestamped(now, header, status))
    }

    /// The fault that answers a message that no service takes.
    fn unsupported(request_handle: u32, now: DateTime) -> (r: Option<SupportedMessage>)
        ensures
            r.deep_view() == Some(
                SupportedMessageView::fault(request_handle, now, StatusCode(BAD_SERVICE_UNSUPPORTED)),
            ),
    {
        let header = RequestHeader::new(&NodeId::null(), &now, request_handle);
        Some(ServiceFault::new_timestamped(now, &header, StatusCode(BAD_SERVICE_UNSUPPORTED)))
    }

    /// Judges the session that a request names, and notes the request.
    fn judge(&mut self, header: &RequestHeader, secure_channel_id: u32, now: DateTime) -> (r: Result<
        usize,
        StatusCode,
    >)
        ensures
            match r {
                Err(status) => judged(old(self)@.sessions, header@, secure_channel_id, now) == Err::<
                    int,
                    StatusCode,
                >(status) && final(self)@ == old(self)@,
                Ok(p) => judged(old(self)@.sessions, header@, secure_channel_id, now) == Ok::<
                    int,
                    StatusCode,
                >(p as int) && is_served(old(self)@, p as int, now, final(self)@) && final(self)@.sessions.sessions[p as int] == (SessionView {
                    last_activity: now,
                    ..old(self)@.sessions.sessions[p as int]
                }),
            },
    {
        proof {
            crate::session_manager::lemma_session_position_from(
                self@.sessions.sessions,
                header@.authentication_token,
                0,
            );
        }
        self.sessions.session_for_request(&header.authentication_token, secure_channel_id, now)
    }

    /// Answers a request to browse.
    fn handle_browse(
        &mut self,
        secure_channel_id: u32,
        request: crate::service_types::view_messages::BrowseRequest,
        environment: &Environment,
    ) -> (r: Option<SupportedMessage>)
        ensures
            is_handled(
                old(self)@,
                secure_channel_id,
                SupportedMessageView::BrowseRequest(request@),
                environment@,
                r.deep_view(),
                final(self)@,
            ),
    {
        let now = environment.now;
        match self.judge(&request.request_header, secure_channel_id, now) {
            Err(status) => Self::refuse(&request.request_header, status, now),
            Ok(p) => {
                let ghost judged = self@;
                let service = ViewService::new();
                let session = self.sessions.session_mut(p);
                let response = service.browse(session, &self.address_space, request);
                proof {
                    assert(self@.sessions.sessions =~= old(self)@.sessions.sessions.update(
                        p as int,
                        self@.sessions.sessions[p as int],
                    ));
                }
                match response {
                    Ok(response) => Some(response),
                    Err(_) => None,
                }
            },
        }
    }

    /// Answers a request to go on browsing.
    fn handle_browse_next(
        &mut self,
        secure_channel_id: u32,
        request: crate::service_types::view_messages::BrowseNextRequest,
        environment: &Environment,
    ) -> (r: Option<SupportedMessage>)
        ensures
            is_handled(
                old(self)@,
                secure_channel_id,
                SupportedMessageView::BrowseNextRequest(request@),
                environment@,
                r.deep_view(),
                final(self)@,
            ),
    {
        let now = environment.now;
        match self.judge(&request.request_header, secure_channel_id, now) {
            Err(status) => Self::refuse(&request.request_header, status, now),
            Ok(p) => {
                let service = ViewService::new();
                let session = self.sessions.session_mut(p);
                let response = service.browse_next(session, &self.address_space, request);
                proof {
                    assert(self@.sessions.sessions =~= old(self)@.sessions.sessions.update(
                        p as int,
                        self@.sessions.sessions[p as int],
                    ));
                }
                match response {
                    Ok(response) => Some(response),
                    Err(_) => None,
                }
            },
        }
    }

    /// Takes a publish request.
    fn handle_publish(
        &mut self,
        secure_channel_id: u32,
        request: crate::service_types::monitored_item_messages::PublishRequest,
        environment: &Environment,
    ) -> (r: Option<SupportedMessage>)
        ensures
            is_handled(
                old(self)@,
                secure_channel_id,
                SupportedMessageView::PublishRequest(request@),
                environment@,
                r.deep_view(),
                final(self)@,
            ),
    {
        let now = environment.now;
        match self.judge(&request.request_header, secure_channel_id, now) {
            Err(status) => Self::refuse(&request.request_header, status, now),
            Ok(p) => {
                let service = SubscriptionService::new();
                let session = self.sessions.session_mut(p);
                service.publish(session, request);
                proof {
                    assert(self@.sessions.sessions =~= old(self)@.sessions.sessions.update(
                        p as int,
                        self@.sessions.sessions[p as int],
                    ));
                }
                None
            },
        }
    }

    /// Answers a request that needs a session and leaves the session as it
    /// is: to resolve paths, to read, to republish.
    fn handle_query(
        &mut self,
        secure_channel_id: u32,
        message: SupportedMessage,
        environment: &Environment,
    ) -> (r: Option<SupportedMessage>)
        requires
            message@ is TranslateBrowsePathsToNodeIdsRequest || message@ is ReadRequest || message@
                is RepublishRequest,
        ensures
            is_handled(
                old(self)@,
                secure_channel_id,
                message@,
                environment@,
                r.deep_view(),
                final(self)@,
            ),
    {
        let now = environment.now;
        match message {
            SupportedMessage::TranslateBrowsePathsToNodeIdsRequest(request) => {
                match self.judge(&request.request_header, secure_channel_id, now) {
                    Err(status) => Self::refuse(&request.request_header, status, now),
                    Ok(_) => {
                        let service = ViewService::new();
                        match service.translate_browse_paths_to_node_ids(
                            &self.address_space,
                            request,
                        ) {
                            Ok(response) => Some(response),
                            Err(_) => None,
                        }
                    },
                }
            },
            SupportedMessage::ReadRequest(request) => {
                match self.judge(&request.request_header, secure_channel_id, now) {
                    Err(status) => Self::refuse(&request.request_header, status, now),
                    Ok(_) => {
                        let service = AttributeService::new();
                        match service.read_at(&self.address_space, request, now) {
                            Ok(response) => Some(response),
                            Err(_) => None,
                        }
                    },
                }
            },
            SupportedMessage::RepublishRequest(request) => {
                match self.judge(&request.request_header, secure_channel_id, now) {
                    Err(status) => Self::refuse(&request.request_header, status, now),
                    Ok(p) => {
                        let service = SubscriptionService::new();
                        Some(service.republish_at(self.sessions.session(p), &request, now))
                    },
                }
            },
            _ => None,
        }
    }

    /// Answers a request of the session service.
    fn handle_session(
        &mut self,
        secure_channel_id: u32,
        message: SupportedMessage,
        environment: Environment,
    ) -> (r: Option<SupportedMessage>)
        requires
            message@ is CreateSessionRequest || message@ is ActivateSessionRequest || message@
                is CloseSessionRequest,
        ensures
            is_handled(
                old(self)@,
                secure_channel_id,
                message@,
                environment@,
                r.deep_view(),
                final(self)@,
            ),
    {
        let now = environment.now;
        let service = SessionService::new();
        match message {
            SupportedMessage::CreateSessionRequest(request) => Some(
                service.create_session_at(
                    &mut self.sessions,
                    &self.state,
                    secure_channel_id,
                    &request,
                    environment.authentication_token,
                    environment.server_nonce,
                    now,
                ),
            ),
            SupportedMessage::ActivateSessionRequest(request) => Some(
                service.activate_session_at(
                    &mut self.sessions,
                    &self.state,
                    secure_channel_id,
                    &request,
                    environment.certificate_valid,
                    environment.server_nonce,
                    now,
                ),
            ),
            SupportedMessage::CloseSessionRequest(request) => Some(
                service.close_session_at(&mut self.sessions, secure_channel_id, &request, now),
            ),
            _ => None,
        }
    }

    /// Takes a message that arrives on the channel `secure_channel_id`,
    /// and returns the response, if one is to be sent at once.
    pub fn handle_message(
        &mut self,
        secure_channel_id: u32,
        message: SupportedMessage,
        environment: Environment,
    ) -> (r: Option<SupportedMessage>)
        ensures
            is_handled(
                old(self)@,
                secure_channel_id,
                message@,
                environment@,
                r.deep_view(),
                final(self)@,
            ),
    {
        let now = environment.now;
        match message {
            SupportedMessage::GetEndpointsRequest(request) => {
                let service = DiscoveryService::new();
                match service.get_endpoints(&self.state, request) {
                    Ok(response) => Some(response),
                    Err(_) => None,
                }
            },
            SupportedMessage::CreateSessionRequest(_) => self.handle_session(
                secure_channel_id,
                message,
                environment,
            ),
            SupportedMessage::ActivateSessionRequest(_) => self.handle_session(
                secure_channel_id,
                message,
                environment,
            ),
            SupportedMessage::CloseSessionRequest(_) => self.handle_session(
                secure_channel_id,
                message,
                environment,
            ),
            SupportedMessage::BrowseRequest(request) => self.handle_browse(
                secure_channel_id,
                request,
                &environment,
            ),
            SupportedMessage::BrowseNextRequest(request) => self.handle_browse_next(
                secure_channel_id,
                request,
                &environment,
            ),
            SupportedMessage::PublishRequest(request) => self.handle_publish(
                secure_channel_id,
                request,
                &environment,
            ),
            SupportedMessage::TranslateBrowsePathsToNodeIdsRequest(_) => self.handle_query(
                secure_channel_id,
                message,
                &environment,
            ),
            SupportedMessage::ReadRequest(_) => self.handle_query(
                secure_channel_id,
                message,
                &environment,
            ),
            SupportedMessage::RepublishRequest(_) => self.handle_query(
                secure_channel_id,
                message,
                &environment,
            ),
            SupportedMessage::OpenSecureChannelRequest(request) => Self::unsupported(
                request.request_header.request_handle,
                now,
            ),
            SupportedMessage::CloseSecureChannelRequest(request) => Self::unsupported(
                request.request_header.request_handle,
                now,
            ),
            SupportedMessage::QueryNextRequest(request) => Self::unsupported(
                request.request_header.request_handle,
                now,
            ),
            SupportedMessage::ModifySubscriptionRequest(request) => Self::unsupported(
                request.request_header.request_handle,
                now,
            ),
            _ => Self::unsupported(0, now),
        }
    }
}

} // verus!
