//! The messages that open and close a secure channel, and the service fault.

use crate::byte_string::ByteString;
use crate::date_time::DateTime;
use crate::service_types::request_header::{RequestHeader, RequestHeaderView};
use crate::service_types::response_header::{ResponseHeader, ResponseHeaderView};
use vstd::prelude::*;

verus! {

/// How the messages on a secure channel are protected.
#[derive(Clone, Copy, Debug, PartialEq, Eq, Hash, Structural)]
pub enum MessageSecurityMode {
    /// Not one of the valid modes.
    Invalid,
    /// Neither signed nor encrypted.
    NoSecurity,
    /// Signed.
    Sign,
    /// Signed and encrypted.
    SignAndEncrypt,
}

impl DeepView for MessageSecurityMode {
    type V = MessageSecurityMode;

    open spec fn deep_view(&self) -> MessageSecurityMode {
        *self
    }
}

/// Whether a security token is asked for the first time or again.
#[derive(Clone, Copy, Debug, PartialEq, Eq, Hash, Structural)]
pub enum SecurityTokenRequestType {
    /// A first token for a new channel.
    Issue,
    /// A new token for an open channel.
    Renew,
}

impl DeepView for SecurityTokenRequestType {
    type V = SecurityTokenRequestType;

    open spec fn deep_view(&self) -> SecurityTokenRequestType {
        *self
    }
}

/// Asks to open a secure channel or to renew its token.
#[derive(Debug, PartialEq, Clone)]
pub struct OpenSecureChannelRequest {
    pub request_header: RequestHeader,
    pub client_protocol_version: u32,
    pub request_type: SecurityTokenRequestType,
    pub security_mode: MessageSecurityMode,
    pub client_nonce: ByteString,
    pub requested_lifetime: u32,
}

/// The value that a `OpenSecureChannelRequest` stands for.
pub struct OpenSecureChannelRequestView {
    pub request_header: RequestHeaderView,
    pub client_protocol_version: u32,
    pub request_type: SecurityTokenRequestType,
    pub security_mode: MessageSecurityMode,
    pub client_nonce: Option<Seq<u8>>,
    pub requested_lifetime: u32,
}

impl DeepView for OpenSecureChannelRequest {
    type V = OpenSecureChannelRequestView;

    open spec fn deep_view(&self) -> OpenSecureChannelRequestView {
        OpenSecureChannelRequestView {
            request_header: self.request_header.deep_view(),
            client_protocol_version: self.client_protocol_version.deep_view(),
            request_type: self.request_type.deep_view(),
            security_mode: self.security_mode.deep_view(),
            client_nonce: self.client_nonce.deep_view(),
            requested_lifetime: self.requested_lifetime.deep_view(),
        }
    }
}

impl View for OpenSecureChannelRequest {
    type V = OpenSecureChannelRequestView;

    open spec fn view(&self) -> OpenSecureChannelRequestView {
        self.deep_view()
    }
}

/// The token under which the messages of a channel are secured.
#[derive(Debug, PartialEq, Clone)]
pub struct ChannelSecurityToken {
    pub channel_id: u32,
    pub token_id: u32,
    pub created_at: DateTime,
    pub revised_lifetime: u32,
}

/// The value that a `ChannelSecurityToken` stands for.
pub struct ChannelSecurityTokenView {
    pub channel_id: u32,
    pub token_id: u32,
    pub created_at: DateTime,
    pub revised_lifetime: u32,
}

impl DeepView for ChannelSecurityToken {
    type V = ChannelSecurityTokenView;

    open spec fn deep_view(&self) -> ChannelSecurityTokenView {
        ChannelSecurityTokenView {
            channel_id: self.channel_id.deep_view(),
            token_id: self.token_id.deep_view(),
            created_at: self.created_at.deep_view(),
            revised_lifetime: self.revised_lifetime.deep_view(),
        }
    }
}

impl View for ChannelSecurityToken {
    type V = ChannelSecurityTokenView;

    open spec fn view(&self) -> ChannelSecurityTokenView {
        self.deep_view()
    }
}

/// Answers a request to open a secure channel.
#[derive(Debug, PartialEq, Clone)]
pub struct OpenSecureChannelResponse {
    pub response_header: ResponseHeader,
    pub server_protocol_version: u32,
    pub security_token: ChannelSecurityToken,
    pub server_nonce: ByteString,
}

/// The value that a `OpenSecureChannelResponse` stands for.
pub struct OpenSecureChannelResponseView {
    pub response_header: ResponseHeaderView,
    pub server_protocol_version: u32,
    pub security_token: ChannelSecurityTokenView,
    pub server_nonce: Option<Seq<u8>>,
}

impl DeepView for OpenSecureChannelResponse {
    type V = OpenSecureChannelResponseView;

    open spec fn deep_view(&self) -> OpenSecureChannelResponseView {
        OpenSecureChannelResponseView {
            response_header: self.response_header.deep_view(),
            server_protocol_version: self.server_protocol_version.deep_view(),
            security_token: self.security_token.deep_view(),
            server_nonce: self.server_nonce.deep_view(),
        }
    }
}

impl View for OpenSecureChannelResponse {
    type V = OpenSecureChannelResponseView;

    open spec fn view(&self) -> OpenSecureChannelResponseView {
        self.deep_view()
    }
}

/// Asks to close a secure channel.
#[derive(Debug, PartialEq, Clone)]
pub struct CloseSecureChannelRequest {
    pub request_header: RequestHeader,
}

/// The value that a `CloseSecureChannelRequest` stands for.
pub struct CloseSecureChannelRequestView {
    pub request_header: RequestHeaderView,
}

impl DeepView for CloseSecureChannelRequest {
    type V = CloseSecureChannelRequestView;

    open spec fn deep_view(&self) -> CloseSecureChannelRequestView {
        CloseSecureChannelRequestView {
            request_header: self.request_header.deep_view(),
        }
    }
}

impl View for CloseSecureChannelRequest {
    type V = CloseSecureChannelRequestView;

    open spec fn view(&self) -> CloseSecureChannelRequestView {
        self.deep_view()
    }
}

/// Says that a secure channel was closed.
#[derive(Debug, PartialEq, Clone)]
pub struct CloseSecureChannelResponse {
    pub response_header: ResponseHeader,
}

/// The value that a `CloseSecureChannelResponse` stands for.
pub struct CloseSecureChannelResponseView {
    pub response_header: ResponseHeaderView,
}

impl DeepView for CloseSecureChannelResponse {
    type V = CloseSecureChannelResponseView;

    open spec fn deep_view(&self) -> CloseSecureChannelResponseView {
        CloseSecureChannelResponseView {
            response_header: self.response_header.deep_view(),
        }
    }
}

impl View for CloseSecureChannelResponse {
    type V = CloseSecureChannelResponseView;

    open spec fn view(&self) -> CloseSecureChannelResponseView {
        self.deep_view()
    }
}

/// The response to a request that failed as a whole.
#[derive(Debug, PartialEq, Clone)]
pub struct ServiceFault {
    pub response_header: ResponseHeader,
}

/// The value that a `ServiceFault` stands for.
pub struct ServiceFaultView {
    pub response_header: ResponseHeaderView,
}

impl DeepView for ServiceFault {
    type V = ServiceFaultView;

    open spec fn deep_view(&self) -> ServiceFaultView {
        ServiceFaultView {
            response_header: self.response_header.deep_view(),
        }
    }
}

impl View for ServiceFault {
    type V = ServiceFaultView;

    open spec fn view(&self) -> ServiceFaultView {
        self.deep_view()
    }
}

} // verus!
