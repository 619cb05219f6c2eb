//! The messages that the server can receive or send.

use crate::service_types::discovery_messages::{
    GetEndpointsRequest,
    GetEndpointsRequestView,
    GetEndpointsResponse,
    GetEndpointsResponseView,
};
use crate::service_types::modify_subscription_request::{
    ModifySubscriptionRequest,
    ModifySubscriptionRequestView,
};
use crate::service_types::monitored_item_messages::{PublishRequest, PublishRequestView};
use crate::service_types::publish_response::{PublishResponse, PublishResponseView};
use crate::service_types::query_next_request::{QueryNextRequest, QueryNextRequestView};
use crate::service_types::secure_channel_messages::{
    CloseSecureChannelRequest,
    CloseSecureChannelRequestView,
    CloseSecureChannelResponse,
    CloseSecureChannelResponseView,
    OpenSecureChannelRequest,
    OpenSecureChannelRequestView,
    OpenSecureChannelResponse,
    OpenSecureChannelResponseView,
    ServiceFault,
    ServiceFaultView,
};
use crate::service_types::session_messages::{
    ActivateSessionRequest,
    ActivateSessionRequestView,
    ActivateSessionResponse,
    ActivateSessionResponseView,
    CloseSessionRequest,
    CloseSessionRequestView,
    CloseSessionResponse,
    CloseSessionResponseView,
    CreateSessionRequest,
    CreateSessionRequestView,
    CreateSessionResponse,
    CreateSessionResponseView,
    ReadRequest,
    ReadRequestView,
    ReadResponse,
    ReadResponseView,
    RepublishRequest,
    RepublishRequestView,
    RepublishResponse,
    RepublishResponseView,
};
use crate::service_types::translate_browse_paths_to_node_ids_request::{
    TranslateBrowsePathsToNodeIdsRequest,
    TranslateBrowsePathsToNodeIdsRequestView,
};
use crate::service_types::view_messages::{
    BrowseNextRequest,
    BrowseNextRequestView,
    BrowseNextResponse,
    BrowseNextResponseView,
    BrowseRequest,
    BrowseRequestView,
    BrowseResponse,
    BrowseResponseView,
    TranslateBrowsePathsToNodeIdsResponse,
    TranslateBrowsePathsToNodeIdsResponseView,
};
use crate::service_types::request_header::RequestHeader;
use crate::service_types::response_header::{ResponseHeader, ResponseHeaderView};
use crate::status_codes::StatusCode;
use crate::date_time::DateTime;
use vstd::prelude::*;

verus! {

/// A message that the server can receive or send.
#[derive(Debug, PartialEq, Clone)]
pub enum SupportedMessage {
    OpenSecureChannelRequest(OpenSecureChannelRequest),
    OpenSecureChannelResponse(OpenSecureChannelResponse),
    CloseSecureChannelRequest(CloseSecureChannelRequest),
    CloseSecureChannelResponse(CloseSecureChannelResponse),
    ServiceFault(ServiceFault),
    GetEndpointsRequest(GetEndpointsRequest),
    GetEndpointsResponse(GetEndpointsResponse),
    BrowseRequest(BrowseRequest),
    BrowseResponse(BrowseResponse),
    BrowseNextRequest(BrowseNextRequest),
    BrowseNextResponse(BrowseNextResponse),
    TranslateBrowsePathsToNodeIdsRequest(TranslateBrowsePathsToNodeIdsRequest),
    TranslateBrowsePathsToNodeIdsResponse(TranslateBrowsePathsToNodeIdsResponse),
    QueryNextRequest(QueryNextRequest),
    ModifySubscriptionRequest(ModifySubscriptionRequest),
    PublishResponse(PublishResponse),
    PublishRequest(PublishRequest),
    CreateSessionRequest(CreateSessionRequest),
    CreateSessionResponse(CreateSessionResponse),
    ActivateSessionRequest(ActivateSessionRequest),
    ActivateSessionResponse(ActivateSessionResponse),
    CloseSessionRequest(CloseSessionRequest),
    CloseSessionResponse(CloseSessionResponse),
    ReadRequest(ReadRequest),
    ReadResponse(ReadResponse),
    RepublishRequest(RepublishRequest),
    RepublishResponse(RepublishResponse),
}

/// The value that a `SupportedMessage` stands for.
pub enum SupportedMessageView {
    OpenSecureChannelRequest(OpenSecureChannelRequestView),
    OpenSecureChannelResponse(OpenSecureChannelResponseView),
    CloseSecureChannelRequest(CloseSecureChannelRequestView),
    CloseSecureChannelResponse(CloseSecureChannelResponseView),
    ServiceFault(ServiceFaultView),
    GetEndpointsRequest(GetEndpointsRequestView),
    GetEndpointsResponse(GetEndpointsResponseView),
    BrowseRequest(BrowseRequestView),
    BrowseResponse(BrowseResponseView),
    BrowseNextRequest(BrowseNextRequestView),
    BrowseNextResponse(BrowseNextResponseView),
    TranslateBrowsePathsToNodeIdsRequest(TranslateBrowsePathsToNodeIdsRequestView),
    TranslateBrowsePathsToNodeIdsResponse(TranslateBrowsePathsToNodeIdsResponseView),
    QueryNextRequest(QueryNextRequestView),
    ModifySubscriptionRequest(ModifySubscriptionRequestView),
    PublishResponse(PublishResponseView),
    PublishRequest(PublishRequestView),
    CreateSessionRequest(CreateSessionRequestView),
    CreateSessionResponse(CreateSessionResponseView),
    ActivateSessionRequest(ActivateSessionRequestView),
    ActivateSessionResponse(ActivateSessionResponseView),
    CloseSessionRequest(CloseSessionRequestView),
    CloseSessionResponse(CloseSessionResponseView),
    ReadRequest(ReadRequestView),
    ReadResponse(ReadResponseView),
    RepublishRequest(RepublishRequestView),
    RepublishResponse(RepublishResponseView),
}

impl DeepView for SupportedMessage {
    type V = SupportedMessageView;

    open spec fn deep_view(&self) -> SupportedMessageView {
        match self {
            SupportedMessage::OpenSecureChannelRequest(m) => SupportedMessageView::OpenSecureChannelRequest(m@),
            SupportedMessage::OpenSecureChannelResponse(m) => SupportedMessageView::OpenSecureChannelResponse(m@),
            SupportedMessage::CloseSecureChannelRequest(m) => SupportedMessageView::CloseSecureChannelRequest(m@),
            SupportedMessage::CloseSecureChannelResponse(m) => SupportedMessageView::CloseSecureChannelResponse(m@),
            SupportedMessage::ServiceFault(m) => SupportedMessageView::ServiceFault(m@),
            SupportedMessage::GetEndpointsRequest(m) => SupportedMessageView::GetEndpointsRequest(m@),
            SupportedMessage::GetEndpointsResponse(m) => SupportedMessageView::GetEndpointsResponse(m@),
            SupportedMessage::BrowseRequest(m) => SupportedMessageView::BrowseRequest(m@),
            SupportedMessage::BrowseResponse(m) => SupportedMessageView::BrowseResponse(m@),
            SupportedMessage::BrowseNextRequest(m) => SupportedMessageView::BrowseNextRequest(m@),
            SupportedMessage::BrowseNextResponse(m) => SupportedMessageView::BrowseNextResponse(m@),
            SupportedMessage::TranslateBrowsePathsToNodeIdsRequest(m) => SupportedMessageView::TranslateBrowsePathsToNodeIdsRequest(m@),
            SupportedMessage::TranslateBrowsePathsToNodeIdsResponse(m) => SupportedMessageView::TranslateBrowsePathsToNodeIdsResponse(m@),
            SupportedMessage::QueryNextRequest(m) => SupportedMessageView::QueryNextRequest(m@),
            SupportedMessage::ModifySubscriptionRequest(m) => SupportedMessageView::ModifySubscriptionRequest(m@),
            SupportedMessage::PublishResponse(m) => SupportedMessageView::PublishResponse(m@),
            SupportedMessage::PublishRequest(m) => SupportedMessageView::PublishRequest(m@),
            SupportedMessage::CreateSessionRequest(m) => SupportedMessageView::CreateSessionRequest(m@),
            SupportedMessage::CreateSessionResponse(m) => SupportedMessageView::CreateSessionResponse(m@),
            SupportedMessage::ActivateSessionRequest(m) => SupportedMessageView::ActivateSessionRequest(m@),
            SupportedMessage::ActivateSessionResponse(m) => SupportedMessageView::ActivateSessionResponse(m@),
            SupportedMessage::CloseSessionRequest(m) => SupportedMessageView::CloseSessionRequest(m@),
            SupportedMessage::CloseSessionResponse(m) => SupportedMessageView::CloseSessionResponse(m@),
            SupportedMessage::ReadRequest(m) => SupportedMessageView::ReadRequest(m@),
            SupportedMessage::ReadResponse(m) => SupportedMessageView::ReadResponse(m@),
            SupportedMessage::RepublishRequest(m) => SupportedMessageView::RepublishRequest(m@),
            SupportedMessage::RepublishResponse(m) => SupportedMessageView::RepublishResponse(m@),
        }
    }
}

impl View for SupportedMessage {
    type V = SupportedMessageView;

    open spec fn view(&self) -> SupportedMessageView {
        self.deep_view()
    }
}

impl SupportedMessageView {
    /// The service fault that answers a request with the handle
    /// `request_handle` at the time `timestamp` with the outcome
    /// `service_result`.
    pub open spec fn fault(
        request_handle: u32,
        timestamp: DateTime,
        service_result: StatusCode,
    ) -> SupportedMessageView {
        SupportedMessageView::ServiceFault(
            ServiceFaultView {
                response_header: ResponseHeaderView::answering(
                    request_handle,
                    timestamp,
                    service_result,
                ),
            },
        )
    }

    /// Whether this is a service fault that answers a request with the
    /// handle `request_handle` with the outcome `service_result`,
    /// whenever it was made.
    pub open spec fn is_fault(self, request_handle: u32, service_result: StatusCode) -> bool {
        self matches SupportedMessageView::ServiceFault(fault) && self == Self::fault(
            request_handle,
            fault.response_header.timestamp,
            service_result,
        )
    }
}

/// The value that the result of a service stands for.
pub open spec fn result_view(result: Result<SupportedMessage, StatusCode>) -> Result<
    SupportedMessageView,
    StatusCode,
> {
    match result {
        Ok(message) => Ok(message@),
        Err(status) => Err(status),
    }
}

impl ServiceFault {
    /// The service fault that answers `request_header` at the time
    /// `timestamp` with the outcome `service_result`.
    pub fn new_timestamped(
        timestamp: DateTime,
        request_header: &RequestHeader,
        service_result: StatusCode,
    ) -> (r: SupportedMessage)
        ensures
            r@ == SupportedMessageView::fault(
                request_header@.request_handle,
                timestamp,
                service_result,
            ),
    {
        SupportedMessage::ServiceFault(
            ServiceFault {
                response_header: ResponseHeader::new_timestamped_service_result(
                    timestamp,
                    request_header,
                    service_result,
                ),
            },
        )
    }

    /// The service fault that answers `request_header` now with the outcome
    /// `service_result`.
    pub fn new_supported_message(request_header: &RequestHeader, service_result: StatusCode) -> (r:
        SupportedMessage)
        ensures
            r@.is_fault(request_header@.request_handle, service_result),
    {
        ServiceFault::new_timestamped(DateTime::now(), request_header, service_result)
    }
}

} // verus!
