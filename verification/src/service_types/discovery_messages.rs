//! The messages of the discovery service.

use crate::byte_string::ByteString;
use crate::service_types::request_header::{RequestHeader, RequestHeaderView};
use crate::service_types::response_header::{ResponseHeader, ResponseHeaderView};
use crate::service_types::secure_channel_messages::MessageSecurityMode;
use crate::string::UAString;
use vstd::prelude::*;

verus! {

/// The kind of identity that a user token carries.
#[derive(Clone, Copy, Debug, PartialEq, Eq, Hash, Structural)]
pub enum UserTokenType {
    /// No identity.
    Anonymous,
    /// A user name and a password.
    UserName,
    /// An X.509 certificate.
    Certificate,
    /// A token issued by another service.
    IssuedToken,
}

impl DeepView for UserTokenType {
    type V = UserTokenType;

    open spec fn deep_view(&self) -> UserTokenType {
        *self
    }
}

/// A kind of user identity that an endpoint accepts.
#[derive(Debug, PartialEq)]
pub struct UserTokenPolicy {
    pub policy_id: UAString,
    pub token_type: UserTokenType,
}

/// The value that a `UserTokenPolicy` stands for.
pub struct UserTokenPolicyView {
    pub policy_id: Option<Seq<char>>,
    pub token_type: UserTokenType,
}

impl DeepView for UserTokenPolicy {
    type V = UserTokenPolicyView;

    open spec fn deep_view(&self) -> UserTokenPolicyView {
        UserTokenPolicyView {
            policy_id: self.policy_id.deep_view(),
            token_type: self.token_type.deep_view(),
        }
    }
}

impl View for UserTokenPolicy {
    type V = UserTokenPolicyView;

    open spec fn view(&self) -> UserTokenPolicyView {
        self.deep_view()
    }
}

impl Clone for UserTokenPolicy {
    fn clone(&self) -> (r: UserTokenPolicy)
        ensures
            r@ == self@,
    {
        UserTokenPolicy {
            policy_id: self.policy_id.clone(),
            token_type: self.token_type.clone(),
        }
    }
}

/// An endpoint that clients may connect to.
#[derive(Debug, PartialEq)]
pub struct EndpointDescription {
    pub endpoint_url: UAString,
    pub server_certificate: ByteString,
    pub security_mode: MessageSecurityMode,
    pub security_policy_uri: UAString,
    pub user_identity_tokens: Option<Vec<UserTokenPolicy>>,
    pub transport_profile_uri: UAString,
    pub security_level: u8,
}

/// The value that a `EndpointDescription` stands for.
pub struct EndpointDescriptionView {
    pub endpoint_url: Option<Seq<char>>,
    pub server_certificate: Option<Seq<u8>>,
    pub security_mode: MessageSecurityMode,
    pub security_policy_uri: Option<Seq<char>>,
    pub user_identity_tokens: Option<Seq<UserTokenPolicyView>>,
    pub transport_profile_uri: Option<Seq<char>>,
    pub security_level: u8,
}

impl DeepView for EndpointDescription {
    type V = EndpointDescriptionView;

    open spec fn deep_view(&self) -> EndpointDescriptionView {
        EndpointDescriptionView {
            endpoint_url: self.endpoint_url.deep_view(),
            server_certificate: self.server_certificate.deep_view(),
            security_mode: self.security_mode.deep_view(),
            security_policy_uri: self.security_policy_uri.deep_view(),
            user_identity_tokens: self.user_identity_tokens.deep_view(),
            transport_profile_uri: self.transport_profile_uri.deep_view(),
            security_level: self.security_level.deep_view(),
        }
    }
}

impl View for EndpointDescription {
    type V = EndpointDescriptionView;

    open spec fn view(&self) -> EndpointDescriptionView {
        self.deep_view()
    }
}

/// A copy of a list of user token policies.
pub fn clone_policies(policies: &Option<Vec<UserTokenPolicy>>) -> (r: Option<Vec<UserTokenPolicy>>)
    ensures
        r.deep_view() == policies.deep_view(),
{
    match policies {
        None => None,
        Some(list) => {
            let mut copy: Vec<UserTokenPolicy> = Vec::new();
            let mut i: usize = 0;
            while i < list.len()
                invariant
                    i <= list.len(),
                    copy.deep_view().len() == i,
                    forall|j: int| 0 <= j < i ==> copy.deep_view()[j] == list.deep_view()[j],
                decreases list.len() - i,
            {
                let ghost before = copy.deep_view();
                assert(list[i as int]@ == list.deep_view()[i as int]);
                copy.push(list[i].clone());
                assert(copy.deep_view() =~= before.push(list.deep_view()[i as int]));
                i = i + 1;
            }
            assert(copy.deep_view() =~= list.deep_view());
            Some(copy)
        },
    }
}

impl Clone for EndpointDescription {
    fn clone(&self) -> (r: EndpointDescription)
        ensures
            r@ == self@,
    {
        EndpointDescription {
            endpoint_url: self.endpoint_url.clone(),
            server_certificate: self.server_certificate.clone(),
            security_mode: self.security_mode,
            security_policy_uri: self.security_policy_uri.clone(),
            user_identity_tokens: clone_policies(&self.user_identity_tokens),
            transport_profile_uri: self.transport_profile_uri.clone(),
            security_level: self.security_level,
        }
    }
}

/// Asks for the endpoints of the server.
#[derive(Debug, PartialEq, Clone)]
pub struct GetEndpointsRequest {
    pub request_header: RequestHeader,
    pub endpoint_url: UAString,
    pub locale_ids: Option<Vec<UAString>>,
    pub profile_uris: Option<Vec<UAString>>,
}

/// The value that a `GetEndpointsRequest` stands for.
pub struct GetEndpointsRequestView {
    pub request_header: RequestHeaderView,
    pub endpoint_url: Option<Seq<char>>,
    pub locale_ids: Option<Seq<Option<Seq<char>>>>,
    pub profile_uris: Option<Seq<Option<Seq<char>>>>,
}

impl DeepView for GetEndpointsRequest {
    type V = GetEndpointsRequestView;

    open spec fn deep_view(&self) -> GetEndpointsRequestView {
        GetEndpointsRequestView {
            request_header: self.request_header.deep_view(),
            endpoint_url: self.endpoint_url.deep_view(),
            locale_ids: self.locale_ids.deep_view(),
            profile_uris: self.profile_uris.deep_view(),
        }
    }
}

impl View for GetEndpointsRequest {
    type V = GetEndpointsRequestView;

    open spec fn view(&self) -> GetEndpointsRequestView {
        self.deep_view()
    }
}

/// Lists the endpoints of the server.
#[derive(Debug, PartialEq, Clone)]
pub struct GetEndpointsResponse {
    pub response_header: ResponseHeader,
    pub endpoints: Option<Vec<EndpointDescription>>,
}

/// The value that a `GetEndpointsResponse` stands for.
pub struct GetEndpointsResponseView {
    pub response_header: ResponseHeaderView,
    pub endpoints: Option<Seq<EndpointDescriptionView>>,
}

impl DeepView for GetEndpointsResponse {
    type V = GetEndpointsResponseView;

    open spec fn deep_view(&self) -> GetEndpointsResponseView {
        GetEndpointsResponseView {
            response_header: self.response_header.deep_view(),
            endpoints: self.endpoints.deep_view(),
        }
    }
}

impl View for GetEndpointsResponse {
    type V = GetEndpointsResponseView;

    open spec fn view(&self) -> GetEndpointsResponseView {
        self.deep_view()
    }
}

} // verus!
