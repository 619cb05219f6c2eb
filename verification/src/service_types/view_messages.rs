//! The messages of the view service.

use crate::basic_types::{
    ExpandedNodeId, ExpandedNodeIdView, LocalizedText, LocalizedTextView, QualifiedName,
    QualifiedNameView,
};
use crate::byte_string::ByteString;
use crate::date_time::DateTime;
use crate::diagnostic_info::{DiagnosticInfo, DiagnosticInfoView};
use crate::node_id::{NodeId, NodeIdView};
use crate::service_types::request_header::{RequestHeader, RequestHeaderView};
use crate::service_types::response_header::{ResponseHeader, ResponseHeaderView};
use crate::status_codes::StatusCode;
use vstd::prelude::*;

verus! {

/// Which references of a node a browse follows.
#[derive(Clone, Copy, Debug, PartialEq, Eq, Hash, Structural)]
pub enum BrowseDirection {
    /// References from the node.
    Forward,
    /// References to the node.
    Inverse,
    /// References from the node, then references to it.
    Both,
}

impl DeepView for BrowseDirection {
    type V = BrowseDirection;

    open spec fn deep_view(&self) -> BrowseDirection {
        *self
    }
}

/// The class of a node.
#[derive(Clone, Copy, Debug, PartialEq, Eq, Hash, Structural)]
pub enum NodeClass {
    Unspecified,
    Object,
    Variable,
    Method,
    ObjectType,
    VariableType,
    ReferenceType,
    DataType,
    View,
}

impl DeepView for NodeClass {
    type V = NodeClass;

    open spec fn deep_view(&self) -> NodeClass {
        *self
    }
}

impl NodeClass {
    /// The bit that stands for the class in a node class mask.
    pub open spec fn spec_bit(self) -> u32 {
        match self {
            NodeClass::Unspecified => 0,
            NodeClass::Object => 1,
            NodeClass::Variable => 2,
            NodeClass::Method => 4,
            NodeClass::ObjectType => 8,
            NodeClass::VariableType => 16,
            NodeClass::ReferenceType => 32,
            NodeClass::DataType => 64,
            NodeClass::View => 128,
        }
    }

    /// The bit that stands for the class in a node class mask.
    #[verifier::when_used_as_spec(spec_bit)]
    pub fn bit(self) -> (r: u32)
        ensures
            r == self.spec_bit(),
    {
        match self {
            NodeClass::Unspecified => 0,
            NodeClass::Object => 1,
            NodeClass::Variable => 2,
            NodeClass::Method => 4,
            NodeClass::ObjectType => 8,
            NodeClass::VariableType => 16,
            NodeClass::ReferenceType => 32,
            NodeClass::DataType => 64,
            NodeClass::View => 128,
        }
    }
}

/// The view of the address space that a browse is made in.
#[derive(Debug, PartialEq, Clone)]
pub struct ViewDescription {
    pub view_id: NodeId,
    pub timestamp: DateTime,
    pub view_version: u32,
}

/// The value that a `ViewDescription` stands for.
pub struct ViewDescriptionView {
    pub view_id: NodeIdView,
    pub timestamp: DateTime,
    pub view_version: u32,
}

impl DeepView for ViewDescription {
    type V = ViewDescriptionView;

    open spec fn deep_view(&self) -> ViewDescriptionView {
        ViewDescriptionView {
            view_id: self.view_id.deep_view(),
            timestamp: self.timestamp.deep_view(),
            view_version: self.view_version.deep_view(),
        }
    }
}

impl View for ViewDescription {
    type V = ViewDescriptionView;

    open spec fn view(&self) -> ViewDescriptionView {
        self.deep_view()
    }
}

/// A node to browse and what to return of its references.
#[derive(Debug, PartialEq, Clone)]
pub struct BrowseDescription {
    pub node_id: NodeId,
    pub browse_direction: BrowseDirection,
    pub reference_type_id: NodeId,
    pub include_subtypes: bool,
    pub node_class_mask: u32,
    pub result_mask: u32,
}

/// The value that a `BrowseDescription` stands for.
pub struct BrowseDescriptionView {
    pub node_id: NodeIdView,
    pub browse_direction: BrowseDirection,
    pub reference_type_id: NodeIdView,
    pub include_subtypes: bool,
    pub node_class_mask: u32,
    pub result_mask: u32,
}

impl DeepView for BrowseDescription {
    type V = BrowseDescriptionView;

    open spec fn deep_view(&self) -> BrowseDescriptionView {
        BrowseDescriptionView {
            node_id: self.node_id.deep_view(),
            browse_direction: self.browse_direction.deep_view(),
            reference_type_id: self.reference_type_id.deep_view(),
            include_subtypes: self.include_subtypes.deep_view(),
            node_class_mask: self.node_class_mask.deep_view(),
            result_mask: self.result_mask.deep_view(),
        }
    }
}

impl View for BrowseDescription {
    type V = BrowseDescriptionView;

    open spec fn view(&self) -> BrowseDescriptionView {
        self.deep_view()
    }
}

/// A reference of a browsed node and what is known of its target.
#[derive(Debug, PartialEq)]
pub struct ReferenceDescription {
    pub reference_type_id: NodeId,
    pub is_forward: bool,
    pub node_id: ExpandedNodeId,
    pub browse_name: QualifiedName,
    pub display_name: LocalizedText,
    pub node_class: NodeClass,
    pub type_definition: ExpandedNodeId,
}

/// The value that a `ReferenceDescription` stands for.
pub struct ReferenceDescriptionView {
    pub reference_type_id: NodeIdView,
    pub is_forward: bool,
    pub node_id: ExpandedNodeIdView,
    pub browse_name: QualifiedNameView,
    pub display_name: LocalizedTextView,
    pub node_class: NodeClass,
    pub type_definition: ExpandedNodeIdView,
}

impl DeepView for ReferenceDescription {
    type V = ReferenceDescriptionView;

    open spec fn deep_view(&self) -> ReferenceDescriptionView {
        ReferenceDescriptionView {
            reference_type_id: self.reference_type_id.deep_view(),
            is_forward: self.is_forward.deep_view(),
            node_id: self.node_id.deep_view(),
            browse_name: self.browse_name.deep_view(),
            display_name: self.display_name.deep_view(),
            node_class: self.node_class.deep_view(),
            type_definition: self.type_definition.deep_view(),
        }
    }
}

impl View for ReferenceDescription {
    type V = ReferenceDescriptionView;

    open spec fn view(&self) -> ReferenceDescriptionView {
        self.deep_view()
    }
}

impl Clone for ReferenceDescription {
    fn clone(&self) -> (r: ReferenceDescription)
        ensures
            r@ == self@,
    {
        ReferenceDescription {
            reference_type_id: self.reference_type_id.clone(),
            is_forward: self.is_forward.clone(),
            node_id: self.node_id.clone(),
            browse_name: self.browse_name.clone(),
            display_name: self.display_name.clone(),
            node_class: self.node_class.clone(),
            type_definition: self.type_definition.clone(),
        }
    }
}

/// The references found for one browsed node.
#[derive(Debug, PartialEq, Clone)]
pub struct BrowseResult {
    pub status_code: StatusCode,
    pub continuation_point: ByteString,
    pub references: Option<Vec<ReferenceDescription>>,
}

/// The value that a `BrowseResult` stands for.
pub struct BrowseResultView {
    pub status_code: StatusCode,
    pub continuation_point: Option<Seq<u8>>,
    pub references: Option<Seq<ReferenceDescriptionView>>,
}

impl DeepView for BrowseResult {
    type V = BrowseResultView;

    open spec fn deep_view(&self) -> BrowseResultView {
        BrowseResultView {
            status_code: self.status_code.deep_view(),
            continuation_point: self.continuation_point.deep_view(),
            references: self.references.deep_view(),
        }
    }
}

impl View for BrowseResult {
    type V = BrowseResultView;

    open spec fn view(&self) -> BrowseResultView {
        self.deep_view()
    }
}

/// Asks for the references of nodes.
#[derive(Debug, PartialEq, Clone)]
pub struct BrowseRequest {
    pub request_header: RequestHeader,
    pub view: ViewDescription,
    pub requested_max_references_per_node: u32,
    pub nodes_to_browse: Option<Vec<BrowseDescription>>,
}

/// The value that a `BrowseRequest` stands for.
pub struct BrowseRequestView {
    pub request_header: RequestHeaderView,
    pub view: ViewDescriptionView,
    pub requested_max_references_per_node: u32,
    pub nodes_to_browse: Option<Seq<BrowseDescriptionView>>,
}

impl DeepView for BrowseRequest {
    type V = BrowseRequestView;

    open spec fn deep_view(&self) -> BrowseRequestView {
        BrowseRequestView {
            request_header: self.request_header.deep_view(),
            view: self.view.deep_view(),
            requested_max_references_per_node: self.requested_max_references_per_node.deep_view(),
            nodes_to_browse: self.nodes_to_browse.deep_view(),
        }
    }
}

impl View for BrowseRequest {
    type V = BrowseRequestView;

    open spec fn view(&self) -> BrowseRequestView {
        self.deep_view()
    }
}

/// Answers a browse request, node by node.
#[derive(Debug, PartialEq, Clone)]
pub struct BrowseResponse {
    pub response_header: ResponseHeader,
    pub results: Option<Vec<BrowseResult>>,
    pub diagnostic_infos: Option<Vec<DiagnosticInfo>>,
}

/// The value that a `BrowseResponse` stands for.
pub struct BrowseResponseView {
    pub response_header: ResponseHeaderView,
    pub results: Option<Seq<BrowseResultView>>,
    pub diagnostic_infos: Option<Seq<DiagnosticInfoView>>,
}

impl DeepView for BrowseResponse {
    type V = BrowseResponseView;

    open spec fn deep_view(&self) -> BrowseResponseView {
        BrowseResponseView {
            response_header: self.response_header.deep_view(),
            results: self.results.deep_view(),
            diagnostic_infos: self.diagnostic_infos.deep_view(),
        }
    }
}

impl View for BrowseResponse {
    type V = BrowseResponseView;

    open spec fn view(&self) -> BrowseResponseView {
        self.deep_view()
    }
}

/// Asks to go on from continuation points, or gives them up.
#[derive(Debug, PartialEq, Clone)]
pub struct BrowseNextRequest {
    pub request_header: RequestHeader,
    pub release_continuation_points: bool,
    pub continuation_points: Option<Vec<ByteString>>,
}

/// The value that a `BrowseNextRequest` stands for.
pub struct BrowseNextRequestView {
    pub request_header: RequestHeaderView,
    pub release_continuation_points: bool,
    pub continuation_points: Option<Seq<Option<Seq<u8>>>>,
}

impl DeepView for BrowseNextRequest {
    type V = BrowseNextRequestView;

    open spec fn deep_view(&self) -> BrowseNextRequestView {
        BrowseNextRequestView {
            request_header: self.request_header.deep_view(),
            release_continuation_points: self.release_continuation_points.deep_view(),
            continuation_points: self.continuation_points.deep_view(),
        }
    }
}

impl View for BrowseNextRequest {
    type V = BrowseNextRequestView;

    open spec fn view(&self) -> BrowseNextRequestView {
        self.deep_view()
    }
}

/// Answers a request to go on from continuation points.
#[derive(Debug, PartialEq, Clone)]
pub struct BrowseNextResponse {
    pub response_header: ResponseHeader,
    pub results: Option<Vec<BrowseResult>>,
    pub diagnostic_infos: Option<Vec<DiagnosticInfo>>,
}

/// The value that a `BrowseNextResponse` stands for.
pub struct BrowseNextResponseView {
    pub response_header: ResponseHeaderView,
    pub results: Option<Seq<BrowseResultView>>,
    pub diagnostic_infos: Option<Seq<DiagnosticInfoView>>,
}

impl DeepView for BrowseNextResponse {
    type V = BrowseNextResponseView;

    open spec fn deep_view(&self) -> BrowseNextResponseView {
        BrowseNextResponseView {
            response_header: self.response_header.deep_view(),
            results: self.results.deep_view(),
            diagnostic_infos: self.diagnostic_infos.deep_view(),
        }
    }
}

impl View for BrowseNextResponse {
    type V = BrowseNextResponseView;

    open spec fn view(&self) -> BrowseNextResponseView {
        self.deep_view()
    }
}

/// A node that a browse path leads to.
#[derive(Debug, PartialEq, Clone)]
pub struct BrowsePathTarget {
    pub target_id: ExpandedNodeId,
    pub remaining_path_index: u32,
}

/// The value that a `BrowsePathTarget` stands for.
pub struct BrowsePathTargetView {
    pub target_id: ExpandedNodeIdView,
    pub remaining_path_index: u32,
}

impl DeepView for BrowsePathTarget {
    type V = BrowsePathTargetView;

    open spec fn deep_view(&self) -> BrowsePathTargetView {
        BrowsePathTargetView {
            target_id: self.target_id.deep_view(),
            remaining_path_index: self.remaining_path_index.deep_view(),
        }
    }
}

impl View for BrowsePathTarget {
    type V = BrowsePathTargetView;

    open spec fn view(&self) -> BrowsePathTargetView {
        self.deep_view()
    }
}

/// The nodes that one browse path leads to.
#[derive(Debug, PartialEq, Clone)]
pub struct BrowsePathResult {
    pub status_code: StatusCode,
    pub targets: Option<Vec<BrowsePathTarget>>,
}

/// The value that a `BrowsePathResult` stands for.
pub struct BrowsePathResultView {
    pub status_code: StatusCode,
    pub targets: Option<Seq<BrowsePathTargetView>>,
}

impl DeepView for BrowsePathResult {
    type V = BrowsePathResultView;

    open spec fn deep_view(&self) -> BrowsePathResultView {
        BrowsePathResultView {
            status_code: self.status_code.deep_view(),
            targets: self.targets.deep_view(),
        }
    }
}

impl View for BrowsePathResult {
    type V = BrowsePathResultView;

    open spec fn view(&self) -> BrowsePathResultView {
        self.deep_view()
    }
}

/// Answers a request to resolve browse paths, path by path.
#[derive(Debug, PartialEq, Clone)]
pub struct TranslateBrowsePathsToNodeIdsResponse {
    pub response_header: ResponseHeader,
    pub results: Option<Vec<BrowsePathResult>>,
    pub diagnostic_infos: Option<Vec<DiagnosticInfo>>,
}

/// The value that a `TranslateBrowsePathsToNodeIdsResponse` stands for.
pub struct TranslateBrowsePathsToNodeIdsResponseView {
    pub response_header: ResponseHeaderView,
    pub results: Option<Seq<BrowsePathResultView>>,
    pub diagnostic_infos: Option<Seq<DiagnosticInfoView>>,
}

impl DeepView for TranslateBrowsePathsToNodeIdsResponse {
    type V = TranslateBrowsePathsToNodeIdsResponseView;

    open spec fn deep_view(&self) -> TranslateBrowsePathsToNodeIdsResponseView {
        TranslateBrowsePathsToNodeIdsResponseView {
            response_header: self.response_header.deep_view(),
            results: self.results.deep_view(),
            diagnostic_infos: self.diagnostic_infos.deep_view(),
        }
    }
}

impl View for TranslateBrowsePathsToNodeIdsResponse {
    type V = TranslateBrowsePathsToNodeIdsResponseView;

    open spec fn view(&self) -> TranslateBrowsePathsToNodeIdsResponseView {
        self.deep_view()
    }
}

} // verus!
