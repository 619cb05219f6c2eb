//! The messages of the session, attribute and subscription services.

use crate::byte_string::ByteString;
use crate::diagnostic_info::{DiagnosticInfo, DiagnosticInfoView};
use crate::node_id::{NodeId, NodeIdView};
use crate::service_types::discovery_messages::{EndpointDescription, EndpointDescriptionView};
use crate::service_types::monitored_item_messages::{ReadValueId, ReadValueIdView};
use crate::service_types::notification_message::{NotificationMessage, NotificationMessageView};
use crate::service_types::request_header::{RequestHeader, RequestHeaderView};
use crate::service_types::response_header::{ResponseHeader, ResponseHeaderView};
use crate::string::UAString;
use crate::variant::{DataValue, DataValueView};
use vstd::prelude::*;

verus! {

/// What a client shows of its user when it activates a session.
#[derive(Debug, PartialEq, Clone)]
pub enum UserIdentityToken {
    /// No user.
    Anonymous,
    /// A user by name, with the password as the client typed it.
    UserName(UAString, ByteString),
    /// A user by an X.509 certificate, in encoded form.
    X509(ByteString),
}

/// The value that a `UserIdentityToken` stands for.
pub enum UserIdentityTokenView {
    Anonymous,
    UserName(Option<Seq<char>>, Option<Seq<u8>>),
    X509(Option<Seq<u8>>),
}

impl DeepView for UserIdentityToken {
    type V = UserIdentityTokenView;

    open spec fn deep_view(&self) -> UserIdentityTokenView {
        match self {
            UserIdentityToken::Anonymous => UserIdentityTokenView::Anonymous,
            UserIdentityToken::UserName(user, password) => UserIdentityTokenView::UserName(
                user@,
                password@,
            ),
            UserIdentityToken::X509(certificate) => UserIdentityTokenView::X509(certificate@),
        }
    }
}

impl View for UserIdentityToken {
    type V = UserIdentityTokenView;

    open spec fn view(&self) -> UserIdentityTokenView {
        self.deep_view()
    }
}

/// Asks for a session.
#[derive(Debug, PartialEq, Clone)]
pub struct CreateSessionRequest {
    pub request_header: RequestHeader,
    pub session_name: UAString,
    pub client_nonce: ByteString,
    /// After how many milliseconds without a request the session is to end.
    pub requested_session_timeout: u32,
}

/// The value that a `CreateSessionRequest` stands for.
pub struct CreateSessionRequestView {
    pub request_header: RequestHeaderView,
    pub session_name: Option<Seq<char>>,
    pub client_nonce: Option<Seq<u8>>,
    pub requested_session_timeout: u32,
}

impl DeepView for CreateSessionRequest {
    type V = CreateSessionRequestView;

    open spec fn deep_view(&self) -> CreateSessionRequestView {
        CreateSessionRequestView {
            request_header: self.request_header.deep_view(),
            session_name: self.session_name.deep_view(),
            client_nonce: self.client_nonce.deep_view(),
            requested_session_timeout: self.requested_session_timeout.deep_view(),
        }
    }
}

impl View for CreateSessionRequest {
    type V = CreateSessionRequestView;

    open spec fn view(&self) -> CreateSessionRequestView {
        self.deep_view()
    }
}

/// Names the session that was made.
#[derive(Debug, PartialEq, Clone)]
pub struct CreateSessionResponse {
    pub response_header: ResponseHeader,
    pub session_id: NodeId,
    pub authentication_token: NodeId,
    pub revised_session_timeout: u32,
    pub server_nonce: ByteString,
    pub server_endpoints: Option<Vec<EndpointDescription>>,
}

/// The value that a `CreateSessionResponse` stands for.
pub struct CreateSessionResponseView {
    pub response_header: ResponseHeaderView,
    pub session_id: NodeIdView,
    pub authentication_token: NodeIdView,
    pub revised_session_timeout: u32,
    pub server_nonce: Option<Seq<u8>>,
    pub server_endpoints: Option<Seq<EndpointDescriptionView>>,
}

impl DeepView for CreateSessionResponse {
    type V = CreateSessionResponseView;

    open spec fn deep_view(&self) -> CreateSessionResponseView {
        CreateSessionResponseView {
            response_header: self.response_header.deep_view(),
            session_id: self.session_id.deep_view(),
            authentication_token: self.authentication_token.deep_view(),
            revised_session_timeout: self.revised_session_timeout.deep_view(),
            server_nonce: self.server_nonce.deep_view(),
            server_endpoints: self.server_endpoints.deep_view(),
        }
    }
}

impl View for CreateSessionResponse {
    type V = CreateSessionResponseView;

    open spec fn view(&self) -> CreateSessionResponseView {
        self.deep_view()
    }
}

/// Asks to activate a session, or to bind it to another channel.
#[derive(Debug, PartialEq, Clone)]
pub struct ActivateSessionRequest {
    pub request_header: RequestHeader,
    pub user_identity_token: UserIdentityToken,
}

/// The value that a `ActivateSessionRequest` stands for.
pub struct ActivateSessionRequestView {
    pub request_header: RequestHeaderView,
    pub user_identity_token: UserIdentityTokenView,
}

impl DeepView for ActivateSessionRequest {
    type V = ActivateSessionRequestView;

    open spec fn deep_view(&self) -> ActivateSessionRequestView {
        ActivateSessionRequestView {
            request_header: self.request_header.deep_view(),
            user_identity_token: self.user_identity_token.deep_view(),
        }
    }
}

impl View for ActivateSessionRequest {
    type V = ActivateSessionRequestView;

    open spec fn view(&self) -> ActivateSessionRequestView {
        self.deep_view()
    }
}

/// Says that a session is activated.
#[derive(Debug, PartialEq, Clone)]
pub struct ActivateSessionResponse {
    pub response_header: ResponseHeader,
    pub server_nonce: ByteString,
}

/// The value that a `ActivateSessionResponse` stands for.
pub struct ActivateSessionResponseView {
    pub response_header: ResponseHeaderView,
    pub server_nonce: Option<Seq<u8>>,
}

impl DeepView for ActivateSessionResponse {
    type V = ActivateSessionResponseView;

    open spec fn deep_view(&self) -> ActivateSessionResponseView {
        ActivateSessionResponseView {
            response_header: self.response_header.deep_view(),
            server_nonce: self.server_nonce.deep_view(),
        }
    }
}

impl View for ActivateSessionResponse {
    type V = ActivateSessionResponseView;

    open spec fn view(&self) -> ActivateSessionResponseView {
        self.deep_view()
    }
}

/// Asks to end a session.
#[derive(Debug, PartialEq, Clone)]
pub struct CloseSessionRequest {
    pub request_header: RequestHeader,
    pub delete_subscriptions: bool,
}

/// The value that a `CloseSessionRequest` stands for.
pub struct CloseSessionRequestView {
    pub request_header: RequestHeaderView,
    pub delete_subscriptions: bool,
}

impl DeepView for CloseSessionRequest {
    type V = CloseSessionRequestView;

    open spec fn deep_view(&self) -> CloseSessionRequestView {
        CloseSessionRequestView {
            request_header: self.request_header.deep_view(),
            delete_subscriptions: self.delete_subscriptions.deep_view(),
        }
    }
}

impl View for CloseSessionRequest {
    type V = CloseSessionRequestView;

    open spec fn view(&self) -> CloseSessionRequestView {
        self.deep_view()
    }
}

/// Says that a session has ended.
#[derive(Debug, PartialEq, Clone)]
pub struct CloseSessionResponse {
    pub response_header: ResponseHeader,
}

/// The value that a `CloseSessionResponse` stands for.
pub struct CloseSessionResponseView {
    pub response_header: ResponseHeaderView,
}

impl DeepView for CloseSessionResponse {
    type V = CloseSessionResponseView;

    open spec fn deep_view(&self) -> CloseSessionResponseView {
        CloseSessionResponseView {
            response_header: self.response_header.deep_view(),
        }
    }
}

impl View for CloseSessionResponse {
    type V = CloseSessionResponseView;

    open spec fn view(&self) -> CloseSessionResponseView {
        self.deep_view()
    }
}

/// Asks for attributes of nodes.
#[derive(Debug, PartialEq, Clone)]
pub struct ReadRequest {
    pub request_header: RequestHeader,
    pub nodes_to_read: Option<Vec<ReadValueId>>,
}

/// The value that a `ReadRequest` stands for.
pub struct ReadRequestView {
    pub request_header: RequestHeaderView,
    pub nodes_to_read: Option<Seq<ReadValueIdView>>,
}

impl DeepView for ReadRequest {
    type V = ReadRequestView;

    open spec fn deep_view(&self) -> ReadRequestView {
        ReadRequestView {
            request_header: self.request_header.deep_view(),
            nodes_to_read: self.nodes_to_read.deep_view(),
        }
    }
}

impl View for ReadRequest {
    type V = ReadRequestView;

    open spec fn view(&self) -> ReadRequestView {
        self.deep_view()
    }
}

/// Returns attributes of nodes, in the order in which they were asked for.
#[derive(Debug, PartialEq, Clone)]
pub struct ReadResponse {
    pub response_header: ResponseHeader,
    pub results: Option<Vec<DataValue>>,
    pub diagnostic_infos: Option<Vec<DiagnosticInfo>>,
}

/// The value that a `ReadResponse` stands for.
pub struct ReadResponseView {
    pub response_header: ResponseHeaderView,
    pub results: Option<Seq<DataValueView>>,
    pub diagnostic_infos: Option<Seq<DiagnosticInfoView>>,
}

impl DeepView for ReadResponse {
    type V = ReadResponseView;

    open spec fn deep_view(&self) -> ReadResponseView {
        ReadResponseView {
            response_header: self.response_header.deep_view(),
            results: self.results.deep_view(),
            diagnostic_infos: self.diagnostic_infos.deep_view(),
        }
    }
}

impl View for ReadResponse {
    type V = ReadResponseView;

    open spec fn view(&self) -> ReadResponseView {
        self.deep_view()
    }
}

/// Asks for a notification message again.
#[derive(Debug, PartialEq, Clone)]
pub struct RepublishRequest {
    pub request_header: RequestHeader,
    pub subscription_id: u32,
    pub retransmit_sequence_number: u32,
}

/// The value that a `RepublishRequest` stands for.
pub struct RepublishRequestView {
    pub request_header: RequestHeaderView,
    pub subscription_id: u32,
    pub retransmit_sequence_number: u32,
}

impl DeepView for RepublishRequest {
    type V = RepublishRequestView;

    open spec fn deep_view(&self) -> RepublishRequestView {
        RepublishRequestView {
            request_header: self.request_header.deep_view(),
            subscription_id: self.subscription_id.deep_view(),
            retransmit_sequence_number: self.retransmit_sequence_number.deep_view(),
        }
    }
}

impl View for RepublishRequest {
    type V = RepublishRequestView;

    open spec fn view(&self) -> RepublishRequestView {
        self.deep_view()
    }
}

/// Returns a notification message again.
#[derive(Debug, PartialEq, Clone)]
pub struct RepublishResponse {
    pub response_header: ResponseHeader,
    pub notification_message: NotificationMessage,
}

/// The value that a `RepublishResponse` stands for.
pub struct RepublishResponseView {
    pub response_header: ResponseHeaderView,
    pub notification_message: NotificationMessageView,
}

impl DeepView for RepublishResponse {
    type V = RepublishResponseView;

    open spec fn deep_view(&self) -> RepublishResponseView {
        RepublishResponseView {
            response_header: self.response_header.deep_view(),
            notification_message: self.notification_message.deep_view(),
        }
    }
}

impl View for RepublishResponse {
    type V = RepublishResponseView;

    open spec fn view(&self) -> RepublishResponseView {
        self.deep_view()
    }
}

} // verus!
