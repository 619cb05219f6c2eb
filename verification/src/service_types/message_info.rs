//! The identifiers of the binary encodings of the messages.

use crate::node_id::{NodeId, NodeIdView};
use vstd::prelude::*;

verus! {

/// The objects of the standard namespace that name the binary encoding of a
/// message.
#[allow(non_camel_case_types)]
#[derive(Clone, Copy, Debug, PartialEq, Eq, Hash, Structural)]
pub enum ObjectId {
    ServiceFault_Encoding_DefaultBinary,
    GetEndpointsRequest_Encoding_DefaultBinary,
    GetEndpointsResponse_Encoding_DefaultBinary,
    OpenSecureChannelRequest_Encoding_DefaultBinary,
    OpenSecureChannelResponse_Encoding_DefaultBinary,
    CloseSecureChannelRequest_Encoding_DefaultBinary,
    BrowseRequest_Encoding_DefaultBinary,
    BrowseResponse_Encoding_DefaultBinary,
    BrowseNextRequest_Encoding_DefaultBinary,
    BrowseNextResponse_Encoding_DefaultBinary,
    TranslateBrowsePathsToNodeIdsRequest_Encoding_DefaultBinary,
    TranslateBrowsePathsToNodeIdsResponse_Encoding_DefaultBinary,
    QueryNextRequest_Encoding_DefaultBinary,
    DataChangeFilter_Encoding_DefaultBinary,
    DataChangeNotification_Encoding_DefaultBinary,
    PublishRequest_Encoding_DefaultBinary,
    ModifySubscriptionRequest_Encoding_DefaultBinary,
    PublishResponse_Encoding_DefaultBinary,
}

impl ObjectId {
    /// The number of the object in the standard namespace.
    pub open spec fn spec_number(self) -> u32 {
        match self {
            ObjectId::ServiceFault_Encoding_DefaultBinary => 397,
            ObjectId::GetEndpointsRequest_Encoding_DefaultBinary => 428,
            ObjectId::GetEndpointsResponse_Encoding_DefaultBinary => 431,
            ObjectId::OpenSecureChannelRequest_Encoding_DefaultBinary => 446,
            ObjectId::OpenSecureChannelResponse_Encoding_DefaultBinary => 449,
            ObjectId::CloseSecureChannelRequest_Encoding_DefaultBinary => 452,
            ObjectId::BrowseRequest_Encoding_DefaultBinary => 527,
            ObjectId::BrowseResponse_Encoding_DefaultBinary => 530,
            ObjectId::BrowseNextRequest_Encoding_DefaultBinary => 533,
            ObjectId::BrowseNextResponse_Encoding_DefaultBinary => 536,
            ObjectId::TranslateBrowsePathsToNodeIdsRequest_Encoding_DefaultBinary => 554,
            ObjectId::TranslateBrowsePathsToNodeIdsResponse_Encoding_DefaultBinary => 557,
            ObjectId::QueryNextRequest_Encoding_DefaultBinary => 621,
            ObjectId::DataChangeFilter_Encoding_DefaultBinary => 724,
            ObjectId::DataChangeNotification_Encoding_DefaultBinary => 811,
            ObjectId::PublishRequest_Encoding_DefaultBinary => 826,
            ObjectId::ModifySubscriptionRequest_Encoding_DefaultBinary => 793,
            ObjectId::PublishResponse_Encoding_DefaultBinary => 829,
        }
    }

    /// The number of the object in the standard namespace.
    #[verifier::when_used_as_spec(spec_number)]
    pub fn number(self) -> (r: u32)
        ensures
            r == self.spec_number(),
    {
        match self {
            ObjectId::ServiceFault_Encoding_DefaultBinary => 397,
            ObjectId::GetEndpointsRequest_Encoding_DefaultBinary => 428,
            ObjectId::GetEndpointsResponse_Encoding_DefaultBinary => 431,
            ObjectId::OpenSecureChannelRequest_Encoding_DefaultBinary => 446,
            ObjectId::OpenSecureChannelResponse_Encoding_DefaultBinary => 449,
            ObjectId::CloseSecureChannelRequest_Encoding_DefaultBinary => 452,
            ObjectId::BrowseRequest_Encoding_DefaultBinary => 527,
            ObjectId::BrowseResponse_Encoding_DefaultBinary => 530,
            ObjectId::BrowseNextRequest_Encoding_DefaultBinary => 533,
            ObjectId::BrowseNextResponse_Encoding_DefaultBinary => 536,
            ObjectId::TranslateBrowsePathsToNodeIdsRequest_Encoding_DefaultBinary => 554,
            ObjectId::TranslateBrowsePathsToNodeIdsResponse_Encoding_DefaultBinary => 557,
            ObjectId::QueryNextRequest_Encoding_DefaultBinary => 621,
            ObjectId::DataChangeFilter_Encoding_DefaultBinary => 724,
            ObjectId::DataChangeNotification_Encoding_DefaultBinary => 811,
            ObjectId::PublishRequest_Encoding_DefaultBinary => 826,
            ObjectId::ModifySubscriptionRequest_Encoding_DefaultBinary => 793,
            ObjectId::PublishResponse_Encoding_DefaultBinary => 829,
        }
    }

    /// The node id of the object.
    pub fn as_node_id(self) -> (r: NodeId)
        ensures
            r@ == NodeIdView::numeric(0, self.spec_number()),
    {
        NodeId::new_numeric(0, self.number())
    }
}

/// A message that knows the object that names its binary encoding.
pub trait MessageInfo {
    /// The object that names the binary encoding of messages of this type.
    spec fn spec_object_id() -> ObjectId;

    /// The object that names the binary encoding of this message.
    fn object_id(&self) -> (r: ObjectId)
        ensures
            r == Self::spec_object_id(),
    ;
}

} // verus!
