//! The discovery service: telling clients where to connect.

use crate::comms::message::{SupportedMessage, SupportedMessageView};
use crate::service_types::discovery_messages::{
    GetEndpointsRequest, GetEndpointsRequestView, GetEndpointsResponse,
};
use crate::service_types::request_header::RequestHeader;
use crate::service_types::response_header::{ResponseHeader, ResponseHeaderView};
use crate::service_types::secure_channel_messages::ServiceFault;
use crate::services::Service;
use crate::state::{ServerState, ServerStateView};
use crate::status_codes::{StatusCode, GOOD};
use vstd::prelude::*;

verus! {

/// What a request for the endpoints of the server is answered with: the
/// endpoints that serve the transport profiles the request names.
pub open spec fn is_get_endpoints_outcome(
    state: ServerStateView,
    request: GetEndpointsRequestView,
    message: SupportedMessageView,
) -> bool {
    message matches SupportedMessageView::GetEndpointsResponse(response)
        && response.response_header == ResponseHeaderView::answering(
        request.request_header.request_handle,
        response.response_header.timestamp,
        StatusCode(GOOD),
    ) && response.endpoints == state.endpoints_for(request.profile_uris)
}

/// Tells clients where to connect.
pub struct DiscoveryService {}

impl Service for DiscoveryService {
    fn service_fault(&self, request_header: &RequestHeader, service_result: StatusCode) -> (r:
        SupportedMessage) {
        ServiceFault::new_supported_message(request_header, service_result)
    }
}

impl DiscoveryService {
    /// A new `DiscoveryService`.
    pub fn new() -> DiscoveryService {
        DiscoveryService {  }
    }

    /// Answers a request for the endpoints of the server with the endpoints
    /// that serve the transport profiles the request names.
    pub fn get_endpoints(&self, server_state: &ServerState, request: GetEndpointsRequest) -> (r:
        Result<SupportedMessage, StatusCode>)
        ensures
            r matches Ok(message) && is_get_endpoints_outcome(server_state@, request@, message@),
    {
        let endpoints = server_state.endpoints(&request.profile_uris);
        let response = GetEndpointsResponse {
            response_header: ResponseHeader::new_good(&request.request_header),
            endpoints,
        };
        Ok(SupportedMessage::GetEndpointsResponse(response))
    }
}

} // verus!
