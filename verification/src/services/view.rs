//! The view service: browsing the references of nodes, going on from
//! continuation points, and resolving browse paths.

use crate::address_space::{
    make_reference_filter, reference_filter, AddressSpace, AddressSpaceView, NodeView, Reference,
    ReferenceView,
};
use crate::basic_types::{
    ExpandedNodeId, ExpandedNodeIdView, LocalizedText, LocalizedTextView, QualifiedName,
    QualifiedNameView,
};
use crate::byte_string::ByteString;
use crate::comms::message::{SupportedMessage, SupportedMessageView};
use crate::date_time::DateTime;
use crate::continuation_point::{BrowseContinuationPoint, BrowseContinuationPointView, Moment};
use crate::node_id::{NodeId, NodeIdView};
use crate::node_ids::ReferenceTypeId;
use crate::service_types::relative_path::{BrowsePath, BrowsePathView};
use crate::service_types::request_header::RequestHeader;
use crate::service_types::response_header::{ResponseHeader, ResponseHeaderView};
use crate::service_types::secure_channel_messages::ServiceFault;
use crate::service_types::translate_browse_paths_to_node_ids_request::{
    TranslateBrowsePathsToNodeIdsRequest, TranslateBrowsePathsToNodeIdsRequestView,
};
use crate::service_types::view_messages::{
    BrowseDescription, BrowseDescriptionView, BrowseNextRequest, BrowseNextRequestView,
    BrowseNextResponse, BrowsePathResult, BrowsePathResultView, BrowsePathTarget,
    BrowsePathTargetView, BrowseRequest, BrowseRequestView, BrowseResponse, BrowseResult,
    BrowseResultView, NodeClass, ReferenceDescription, ReferenceDescriptionView,
    TranslateBrowsePathsToNodeIdsResponse,
};
use crate::services::Service;
use crate::session::{other_points, point_position, valid_points, Session};
use crate::status_codes::{
    StatusCode, BAD_CONTINUATION_POINT_INVALID, BAD_NODE_ID_UNKNOWN, BAD_NOTHING_TO_DO,
    BAD_VIEW_ID_UNKNOWN, GOOD,
};
use vstd::prelude::*;

verus! {

/// Selects the reference type of a reference description.
pub const RESULT_MASK_REFERENCE_TYPE: u32 = 1;

/// Selects the direction of a reference description.
pub const RESULT_MASK_IS_FORWARD: u32 = 2;

/// Selects the node class of a reference description.
pub const RESULT_MASK_NODE_CLASS: u32 = 4;

/// Selects the browse name of a reference description.
pub const RESULT_MASK_BROWSE_NAME: u32 = 8;

/// Selects the display name of a reference description.
pub const RESULT_MASK_DISPLAY_NAME: u32 = 16;

/// Selects the type definition of a reference description.
pub const RESULT_MASK_TYPE_DEFINITION: u32 = 32;

/// The length of the id of a continuation point.
pub const CONTINUATION_POINT_ID_LENGTH: usize = 6;

/// Whether a browse returns `reference`: its target is not null, is a node
/// of the space, and has a class that `node_class_mask` lets through; the
/// mask 0 lets every class through.
pub open spec fn is_returned(space: AddressSpaceView, reference: ReferenceView, node_class_mask: u32) -> bool {
    !reference.node_id.is_null() && match space.find_node(reference.node_id) {
        Some(node) => node_class_mask == 0 || node_class_mask & node.node_class.spec_bit() != 0,
        None => false,
    }
}

/// The type definition of `node`: for an object or a variable the target of
/// its first reference of the type HasTypeDefinition; null for any other
/// node and where there is no such reference.
pub open spec fn type_definition(space: AddressSpaceView, node: NodeView) -> ExpandedNodeIdView {
    let definitions = space.references(
        node.node_id,
        false,
        Some((ReferenceTypeId::HasTypeDefinition, false)),
    );
    if (node.node_class == NodeClass::Object || node.node_class == NodeClass::Variable)
        && definitions.len() > 0 {
        ExpandedNodeIdView::local(definitions[0].node_id)
    } else {
        ExpandedNodeIdView::local(NodeIdView::null())
    }
}

/// What a browse returns of `reference`, whose target is a node of the
/// space: the target, and of the other fields those that `result_mask`
/// selects; the others are null, and the direction is forward.
pub open spec fn describe(
    space: AddressSpaceView,
    reference: ReferenceView,
    is_forward: bool,
    result_mask: u32,
) -> ReferenceDescriptionView {
    let node = space.find_node(reference.node_id).unwrap();
    ReferenceDescriptionView {
        node_id: ExpandedNodeIdView::local(reference.node_id),
        reference_type_id: if result_mask & RESULT_MASK_REFERENCE_TYPE != 0 {
            reference.reference_type_id.spec_node_id()
        } else {
            NodeIdView::null()
        },
        is_forward: if result_mask & RESULT_MASK_IS_FORWARD != 0 {
            is_forward
        } else {
            true
        },
        node_class: if result_mask & RESULT_MASK_NODE_CLASS != 0 {
            node.node_class
        } else {
            NodeClass::Unspecified
        },
        browse_name: if result_mask & RESULT_MASK_BROWSE_NAME != 0 {
            node.browse_name
        } else {
            QualifiedNameView { namespace_index: 0, name: None }
        },
        display_name: if result_mask & RESULT_MASK_DISPLAY_NAME != 0 {
            node.display_name
        } else {
            LocalizedTextView { locale: None, text: None }
        },
        type_definition: if result_mask & RESULT_MASK_TYPE_DEFINITION != 0 {
            type_definition(space, node)
        } else {
            ExpandedNodeIdView::local(NodeIdView::null())
        },
    }
}

/// What a browse returns of the first `n` of `references`, leaving out
/// those before `starting_index`. The references from position
/// `inverse_start` on lead to the browsed node, those before from it.
pub open spec fn descriptions_upto(
    space: AddressSpaceView,
    references: Seq<ReferenceView>,
    inverse_start: nat,
    starting_index: nat,
    node_class_mask: u32,
    result_mask: u32,
    n: int,
) -> Seq<ReferenceDescriptionView>
    decreases n,
{
    if n <= 0 {
        Seq::empty()
    } else {
        let before = descriptions_upto(
            space,
            references,
            inverse_start,
            starting_index,
            node_class_mask,
            result_mask,
            n - 1,
        );
        if n - 1 >= starting_index && is_returned(space, references[n - 1], node_class_mask) {
            before.push(describe(space, references[n - 1], n - 1 < inverse_start, result_mask))
        } else {
            before
        }
    }
}

/// What a browse of `node` returns in all, leaving out the references
/// before `starting_index`.
pub open spec fn node_descriptions(
    space: AddressSpaceView,
    node: BrowseDescriptionView,
    starting_index: nat,
) -> Seq<ReferenceDescriptionView> {
    let filter = reference_filter(node.reference_type_id, node.include_subtypes);
    let references = space.references_by_direction(node.node_id, node.browse_direction, filter);
    descriptions_upto(
        space,
        references,
        space.inverse_start(node.node_id, node.browse_direction, filter),
        starting_index,
        node.node_class_mask,
        node.result_mask,
        references.len() as int,
    )
}

/// Whether what is left of `count` descriptions from `start` on is more than
/// a limit of `max` lets through at once; the limit 0 lets everything
/// through.
pub open spec fn is_paged(count: nat, start: nat, max: nat) -> bool {
    max > 0 && count - start > max
}

/// The result that returns `descriptions` from `start` on: where they are
/// more than `max`, the first `max` of them and the continuation point
/// `id`; else all of them and no continuation point.
pub open spec fn page(
    descriptions: Seq<ReferenceDescriptionView>,
    start: nat,
    max: nat,
    id: Option<Seq<u8>>,
) -> BrowseResultView {
    if is_paged(descriptions.len(), start, max) {
        BrowseResultView {
            status_code: StatusCode(GOOD),
            continuation_point: id,
            references: Some(descriptions.subrange(start as int, (start + max) as int)),
        }
    } else {
        BrowseResultView {
            status_code: StatusCode(GOOD),
            continuation_point: None,
            references: Some(descriptions.subrange(start as int, descriptions.len() as int)),
        }
    }
}

/// The continuation points after `descriptions` were returned from `start`
/// on: where they are more than `max`, one more, which goes on behind the
/// first `max` of them and takes the place of any point with the same id.
pub open spec fn points_after_page(
    points: Seq<BrowseContinuationPointView>,
    descriptions: Seq<ReferenceDescriptionView>,
    start: nat,
    max: nat,
    id: Option<Seq<u8>>,
    last_modified: u64,
    now: DateTime,
) -> Seq<BrowseContinuationPointView> {
    if is_paged(descriptions.len(), start, max) {
        other_points(points, seq![id]).push(
            BrowseContinuationPointView {
                id,
                address_space_last_modified: last_modified,
                created_at: now,
                max_references_per_node: max as usize,
                starting_index: (start + max) as usize,
                reference_descriptions: descriptions,
            },
        )
    } else {
        points
    }
}

/// The result that carries nothing but the outcome `status`.
pub open spec fn failed(status: u32) -> BrowseResultView {
    BrowseResultView { status_code: StatusCode(status), continuation_point: None, references: None }
}

/// Whether `node` can be browsed: its id is not null and names a node of
/// the space.
pub open spec fn is_browsable(space: AddressSpaceView, node: BrowseDescriptionView) -> bool {
    !node.node_id.is_null() && space.node_exists(node.node_id)
}

/// The result of browsing `node` with at most `max` references at once,
/// where `id` is the id of the continuation point, if one is made.
pub open spec fn browse_result(
    space: AddressSpaceView,
    node: BrowseDescriptionView,
    max: nat,
    id: Option<Seq<u8>>,
) -> BrowseResultView {
    if is_browsable(space, node) {
        page(node_descriptions(space, node, 0), 0, max, id)
    } else {
        failed(BAD_NODE_ID_UNKNOWN)
    }
}

/// Whether `result` carries a continuation point with an id of the length
/// that the ids of continuation points have.
pub open spec fn has_point(result: BrowseResultView) -> bool {
    result.continuation_point matches Some(id) && id.len() == CONTINUATION_POINT_ID_LENGTH
}

/// Whether browsing `node` finds more than `max` references, so that the
/// result is cut and a continuation point is made.
pub open spec fn browse_is_cut(space: AddressSpaceView, node: BrowseDescriptionView, max: nat) -> bool {
    is_browsable(space, node) && is_paged(node_descriptions(space, node, 0).len(), 0, max)
}

/// Whether `result` is the result of browsing `node` with at most `max`
/// references at once: it is `browse_result` with the continuation point
/// that it carries, and where the result is cut it does carry one.
pub open spec fn is_browse_result(
    space: AddressSpaceView,
    node: BrowseDescriptionView,
    max: nat,
    result: BrowseResultView,
) -> bool {
    &&& result == browse_result(space, node, max, result.continuation_point)
    &&& browse_is_cut(space, node, max) ==> has_point(result)
}

/// The continuation points after browsing `node`.
pub open spec fn points_after_browse(
    space: AddressSpaceView,
    now: DateTime,
    points: Seq<BrowseContinuationPointView>,
    node: BrowseDescriptionView,
    max: nat,
    id: Option<Seq<u8>>,
) -> Seq<BrowseContinuationPointView> {
    if is_browsable(space, node) {
        points_after_page(
            points,
            node_descriptions(space, node, 0),
            0,
            max,
            id,
            space.last_modified,
            now,
        )
    } else {
        points
    }
}

/// The continuation points after browsing the first `n` of `nodes`, where
/// `results` are the results of the browses.
pub open spec fn points_after_browses(
    space: AddressSpaceView,
    now: DateTime,
    points: Seq<BrowseContinuationPointView>,
    nodes: Seq<BrowseDescriptionView>,
    max: nat,
    results: Seq<BrowseResultView>,
    n: int,
) -> Seq<BrowseContinuationPointView>
    decreases n,
{
    if n <= 0 {
        points
    } else {
        points_after_browse(
            space,
            now,
            points_after_browses(space, now, points, nodes, max, results, n - 1),
            nodes[n - 1],
            max,
            results[n - 1].continuation_point,
        )
    }
}

/// The result of going on from the continuation point `id`: of the points
/// that can still be used, the first with that id gives the next part of its
/// result, where `new_id` is the id of the continuation point, if another
/// one is made; without such a point the result is
/// `BAD_CONTINUATION_POINT_INVALID`.
pub open spec fn resume_result(
    moment: Moment,
    points: Seq<BrowseContinuationPointView>,
    id: Option<Seq<u8>>,
    new_id: Option<Seq<u8>>,
) -> BrowseResultView {
    let valid = valid_points(points, moment);
    match point_position(valid, id) {
        Some(i) => page(
            valid[i].reference_descriptions,
            valid[i].starting_index as nat,
            valid[i].max_references_per_node as nat,
            new_id,
        ),
        None => failed(BAD_CONTINUATION_POINT_INVALID),
    }
}

/// Whether going on from the continuation point `id` leaves more than the
/// point lets through at once, so that the result is cut again and another
/// continuation point is made.
pub open spec fn resume_is_cut(
    moment: Moment,
    points: Seq<BrowseContinuationPointView>,
    id: Option<Seq<u8>>,
) -> bool {
    let valid = valid_points(points, moment);
    match point_position(valid, id) {
        Some(i) => is_paged(
            valid[i].reference_descriptions.len(),
            valid[i].starting_index as nat,
            valid[i].max_references_per_node as nat,
        ),
        None => false,
    }
}

/// Whether `result` is the result of going on from the continuation point
/// `id`: it is `resume_result` with the continuation point that it carries,
/// and where the result is cut again it does carry one.
pub open spec fn is_resume_result(
    moment: Moment,
    points: Seq<BrowseContinuationPointView>,
    id: Option<Seq<u8>>,
    result: BrowseResultView,
) -> bool {
    &&& result == resume_result(moment, points, id, result.continuation_point)
    &&& resume_is_cut(moment, points, id) ==> has_point(result)
}

/// The continuation points after going on from the continuation point
/// `id`: those that can still be used, without the one that was used, and
/// with the new one, if one is made.
pub open spec fn points_after_resume(
    moment: Moment,
    points: Seq<BrowseContinuationPointView>,
    id: Option<Seq<u8>>,
    new_id: Option<Seq<u8>>,
) -> Seq<BrowseContinuationPointView> {
    let valid = valid_points(points, moment);
    match point_position(valid, id) {
        Some(i) => points_after_page(
            valid.remove(i),
            valid[i].reference_descriptions,
            valid[i].starting_index as nat,
            valid[i].max_references_per_node as nat,
            new_id,
            moment.last_modified,
            moment.now,
        ),
        None => valid,
    }
}

/// The continuation points after going on from the first `n` of `ids`,
/// where `results` are the results.
pub open spec fn points_after_resumes(
    moment: Moment,
    points: Seq<BrowseContinuationPointView>,
    ids: Seq<Option<Seq<u8>>>,
    results: Seq<BrowseResultView>,
    n: int,
) -> Seq<BrowseContinuationPointView>
    decreases n,
{
    if n <= 0 {
        points
    } else {
        points_after_resume(
            moment,
            points_after_resumes(moment, points, ids, results, n - 1),
            ids[n - 1],
            results[n - 1].continuation_point,
        )
    }
}

/// The targets that a browse path leads to, as the response names them.
pub open spec fn path_targets(ids: Seq<NodeIdView>) -> Seq<BrowsePathTargetView> {
    Seq::new(
        ids.len(),
        |i: int|
            BrowsePathTargetView {
                target_id: ExpandedNodeIdView::local(ids[i]),
                remaining_path_index: u32::MAX,
            },
    )
}

/// The result of resolving `path`: nothing to do for a path without
/// elements; else the outcome of the walk through the address space, with
/// the nodes it leads to where there are any.
pub open spec fn path_result(space: AddressSpaceView, path: BrowsePathView) -> BrowsePathResultView {
    if path.relative_path.elements is None {
        BrowsePathResultView { status_code: StatusCode(BAD_NOTHING_TO_DO), targets: None }
    } else {
        match space.relative_path_targets(path.starting_node, path.relative_path) {
            Err(status) => BrowsePathResultView { status_code: status, targets: None },
            Ok(ids) => BrowsePathResultView {
                status_code: StatusCode(GOOD),
                targets: if ids.len() == 0 {
                    None
                } else {
                    Some(path_targets(ids))
                },
            },
        }
    }
}

/// A copy of the descriptions from position `from` up to position `to`.
pub fn copy_descriptions(descriptions: &[ReferenceDescription], from: usize, to: usize) -> (r: Vec<
    ReferenceDescription,
>)
    requires
        from <= to <= descriptions@.len(),
    ensures
        r.deep_view() == descriptions.deep_view().subrange(from as int, to as int),
{
    let mut copy: Vec<ReferenceDescription> = Vec::new();
    let mut i: usize = from;
    assert(copy.deep_view() =~= descriptions.deep_view().subrange(from as int, from as int));
    while i < to
        invariant
            from <= i <= to <= descriptions@.len(),
            descriptions.deep_view().len() == descriptions@.len(),
            copy.deep_view() == descriptions.deep_view().subrange(from as int, i as int),
        decreases to - i,
    {
        let ghost before = copy.deep_view();
        assert(descriptions[i as int]@ == descriptions.deep_view()[i as int]);
        copy.push(descriptions[i].clone());
        assert(copy.deep_view() =~= before.push(descriptions.deep_view()[i as int]));
        i = i + 1;
        assert(copy.deep_view() =~= descriptions.deep_view().subrange(from as int, i as int));
    }
    copy
}

/// Browses nodes, goes on from continuation points and resolves browse
/// paths.
pub struct ViewService {}

impl Service for ViewService {
    fn service_fault(&self, request_header: &RequestHeader, service_result: StatusCode) -> (r:
        SupportedMessage) {
        ServiceFault::new_supported_message(request_header, service_result)
    }
}

impl ViewService {
    /// A new `ViewService`.
    pub fn new() -> ViewService {
        ViewService {  }
    }

    /// Returns `reference_descriptions` from `starting_index` on: where they
    /// are more than `max_references_per_node`, only so many, and keeps a
    /// continuation point with a random id in the session for the rest,
    /// made at the time of the last activity of the session.
    pub fn reference_description_to_browse_result(
        session: &mut Session,
        address_space: &AddressSpace,
        reference_descriptions: &[ReferenceDescription],
        starting_index: usize,
        max_references_per_node: usize,
    ) -> (r: BrowseResult)
        requires
            starting_index <= reference_descriptions@.len(),
        ensures
            r@ == page(
                reference_descriptions.deep_view(),
                starting_index as nat,
                max_references_per_node as nat,
                r@.continuation_point,
            ),
            final(session)@ == old(session)@.with_points(
                points_after_page(
                    old(session)@.browse_continuation_points,
                    reference_descriptions.deep_view(),
                    starting_index as nat,
                    max_references_per_node as nat,
                    r@.continuation_point,
                    address_space@.last_modified,
                    old(session)@.last_activity,
                ),
            ),
            is_paged(
                reference_descriptions@.len(),
                starting_index as nat,
                max_references_per_node as nat,
            ) ==> (r@.continuation_point matches Some(id) && id.len()
                == CONTINUATION_POINT_ID_LENGTH),
    {
        assert(reference_descriptions.deep_view().len() == reference_descriptions@.len());
        let references_remaining = reference_descriptions.len() - starting_index;
        if max_references_per_node > 0 && references_remaining > max_references_per_node {
            // There is too many results for a single browse result, so only a result will be used
            let ending_index = starting_index + max_references_per_node;
            let reference_descriptions_slice = copy_descriptions(
                reference_descriptions,
                starting_index,
                ending_index,
            );
            // Create a continuation point for the remainder of the result. The point will hold the entire result
            let continuation_point = ByteString::random(CONTINUATION_POINT_ID_LENGTH);
            let all = copy_descriptions(reference_descriptions, 0, reference_descriptions.len());
            assert(all.deep_view() =~= reference_descriptions.deep_view());
            session.add_browse_continuation_point(
                BrowseContinuationPoint::new(
                    continuation_point.clone(),
                    address_space.last_modified(),
                    session.last_activity(),
                    max_references_per_node,
                    ending_index,
                    all,
                ),
            );
            BrowseResult {
                status_code: StatusCode(GOOD),
                continuation_point,
                references: Some(reference_descriptions_slice),
            }
        } else {
            let reference_descriptions_slice = copy_descriptions(
                reference_descriptions,
                starting_index,
                reference_descriptions.len(),
            );
            BrowseResult {
                status_code: StatusCode(GOOD),
                continuation_point: ByteString::null(),
                references: Some(reference_descriptions_slice),
            }
        }
    }
}


impl ViewService {
    /// The type definition of `node`.
    fn type_definition_of(address_space: &AddressSpace, node_id: &NodeId, node_class: NodeClass) -> (r:
        ExpandedNodeId)
        ensures
            r@ == {
                let definitions = address_space@.references(
                    node_id@,
                    false,
                    Some((ReferenceTypeId::HasTypeDefinition, false)),
                );
                if (node_class == NodeClass::Object || node_class == NodeClass::Variable)
                    && definitions.len() > 0 {
                    ExpandedNodeIdView::local(definitions[0].node_id)
                } else {
                    ExpandedNodeIdView::local(NodeIdView::null())
                }
            },
    {
        // Type definitions are only available for the NodeClasses Object and
        // Variable. For all other NodeClasses a null NodeId shall be returned.
        match node_class {
            NodeClass::Object | NodeClass::Variable => {
                let type_defs = address_space.find_references_from(
                    node_id,
                    Some((ReferenceTypeId::HasTypeDefinition, false)),
                );
                match type_defs {
                    Some(type_defs) => {
                        assert(type_defs[0]@ == type_defs.deep_view()[0]);
                        ExpandedNodeId::new(type_defs[0].node_id.clone())
                    },
                    None => ExpandedNodeId::null(),
                }
            },
            _ => ExpandedNodeId::null(),
        }
    }

    /// Browses one node: fails with `BAD_NODE_ID_UNKNOWN` where its id is
    /// null or names no node; else returns what the browse finds from
    /// `starting_index` on, at most `max_references_per_node` at once.
    pub fn browse_node(
        session: &mut Session,
        address_space: &AddressSpace,
        starting_index: usize,
        node_to_browse: &BrowseDescription,
        max_references_per_node: usize,
    ) -> (r: Result<BrowseResult, StatusCode>)
        ensures
            match r {
                Err(status) => !is_browsable(address_space@, node_to_browse@) && status
                    == StatusCode(BAD_NODE_ID_UNKNOWN) && final(session)@ == old(session)@,
                Ok(result) => {
                    let found = node_descriptions(
                        address_space@,
                        node_to_browse@,
                        starting_index as nat,
                    );
                    let max = max_references_per_node as nat;
                    &&& is_browsable(address_space@, node_to_browse@)
                    &&& result@ == page(found, 0, max, result@.continuation_point)
                    &&& final(session)@ == old(session)@.with_points(
                        points_after_page(
                            old(session)@.browse_continuation_points,
                            found,
                            0,
                            max,
                            result@.continuation_point,
                            address_space@.last_modified,
                            old(session)@.last_activity,
                        ),
                    )
                    &&& is_paged(found.len(), 0, max) ==> (result@.continuation_point matches Some(
                        id,
                    ) && id.len() == CONTINUATION_POINT_ID_LENGTH)
                },
            },
    {
        // Node must exist or there will be no references
        if node_to_browse.node_id.is_null() || !address_space.node_exists(&node_to_browse.node_id) {
            return Err(StatusCode(BAD_NODE_ID_UNKNOWN));
        }
        // Request may wish to filter by a kind of reference
        let reference_type_id = make_reference_filter(
            &node_to_browse.reference_type_id,
            node_to_browse.include_subtypes,
        );
        // Fetch the references to / from the given node to browse
        let (references, inverse_ref_idx) = address_space.find_references_by_direction(
            &node_to_browse.node_id,
            node_to_browse.browse_direction,
            reference_type_id,
        );
        let result_mask = node_to_browse.result_mask;
        let node_class_mask = node_to_browse.node_class_mask;
        // Construct descriptions for each reference
        let mut reference_descriptions: Vec<ReferenceDescription> = Vec::new();
        let mut idx: usize = 0;
        assert(reference_descriptions.deep_view() =~= descriptions_upto(
            address_space@,
            references.deep_view(),
            inverse_ref_idx as nat,
            starting_index as nat,
            node_class_mask,
            result_mask,
            0,
        ));
        while idx < references.len()
            invariant
                idx <= references.len(),
                references.deep_view().len() == references.len(),
                reference_descriptions.deep_view() == descriptions_upto(
                    address_space@,
                    references.deep_view(),
                    inverse_ref_idx as nat,
                    starting_index as nat,
                    node_class_mask,
                    result_mask,
                    idx as int,
                ),
            decreases references.len() - idx,
        {
            let ghost before = reference_descriptions.deep_view();
            let reference = &references[idx];
            assert(reference@ == references.deep_view()[idx as int]);
            let described = if idx < starting_index {
                None
            } else {
                Self::describe_reference(
                    address_space,
                    reference,
                    idx < inverse_ref_idx,
                    result_mask,
                    node_class_mask,
                )
            };
            match described {
                Some(description) => {
                    reference_descriptions.push(description);
                    assert(reference_descriptions.deep_view() =~= before.push(description@));
                },
                None => {},
            }
            idx = idx + 1;
        }
        Ok(
            Self::reference_description_to_browse_result(
                session,
                address_space,
                reference_descriptions.as_slice(),
                0,
                max_references_per_node,
            ),
        )
    }

    /// What a browse returns of `reference`, or nothing where the browse
    /// leaves the reference out.
    fn describe_reference(
        address_space: &AddressSpace,
        reference: &Reference,
        is_forward: bool,
        result_mask: u32,
        node_class_mask: u32,
    ) -> (r: Option<ReferenceDescription>)
        ensures
            r.deep_view() == if is_returned(address_space@, reference@, node_class_mask) {
                Some(describe(address_space@, reference@, is_forward, result_mask))
            } else {
                None
            },
    {
        let target_node_id = reference.node_id.clone();
        if target_node_id.is_null() {
            return None;
        }
        let target_node = match address_space.find_node(&target_node_id) {
            Some(node) => node,
            None => {
                return None;
            },
        };
        let target_node_class = target_node.node_class();
        // Skip target nodes not required by the mask
        if node_class_mask != 0 && node_class_mask & target_node_class.bit() == 0 {
            return None;
        }
        // Prepare the values to put into the struct according to the result mask
        let reference_type_id = if result_mask & RESULT_MASK_REFERENCE_TYPE != 0 {
            reference.reference_type_id.as_node_id()
        } else {
            NodeId::null()
        };
        let is_forward = if result_mask & RESULT_MASK_IS_FORWARD != 0 {
            is_forward
        } else {
            true
        };
        let node_class = if result_mask & RESULT_MASK_NODE_CLASS != 0 {
            target_node_class
        } else {
            NodeClass::Unspecified
        };
        let browse_name = if result_mask & RESULT_MASK_BROWSE_NAME != 0 {
            target_node.browse_name().clone()
        } else {
            QualifiedName::null()
        };
        let display_name = if result_mask & RESULT_MASK_DISPLAY_NAME != 0 {
            target_node.display_name().clone()
        } else {
            LocalizedText::null()
        };
        let type_definition = if result_mask & RESULT_MASK_TYPE_DEFINITION != 0 {
            Self::type_definition_of(address_space, target_node.node_id(), target_node_class)
        } else {
            ExpandedNodeId::null()
        };
        proof {
            address_space@.lemma_find_node_from(target_node_id@, 0);
        }
        Some(
            ReferenceDescription {
                node_id: ExpandedNodeId::new(target_node_id),
                reference_type_id,
                is_forward,
                node_class,
                browse_name,
                display_name,
                type_definition,
            },
        )
    }

    /// Browses each of `nodes_to_browse`. A node that cannot be browsed gets
    /// a result that carries the error alone.
    pub fn browse_nodes(
        session: &mut Session,
        address_space: &AddressSpace,
        nodes_to_browse: &[BrowseDescription],
        max_references_per_node: usize,
    ) -> (r: Vec<BrowseResult>)
        ensures
            r.deep_view().len() == nodes_to_browse@.len(),
            forall|i: int|
                0 <= i < r.deep_view().len() ==> is_browse_result(
                    address_space@,
                    nodes_to_browse.deep_view()[i],
                    max_references_per_node as nat,
                    #[trigger] r.deep_view()[i],
                ),
            final(session)@ == old(session)@.with_points(
                points_after_browses(
                    address_space@,
                    old(session)@.last_activity,
                    old(session)@.browse_continuation_points,
                    nodes_to_browse.deep_view(),
                    max_references_per_node as nat,
                    r.deep_view(),
                    nodes_to_browse@.len() as int,
                ),
            ),
    {
        let mut results: Vec<BrowseResult> = Vec::new();
        let mut i: usize = 0;
        let ghost nodes = nodes_to_browse.deep_view();
        let ghost max = max_references_per_node as nat;
        let ghost points = session@.browse_continuation_points;
        while i < nodes_to_browse.len()
            invariant
                i <= nodes_to_browse.len(),
                nodes == nodes_to_browse.deep_view(),
                nodes.len() == nodes_to_browse@.len(),
                max == max_references_per_node,
                points == old(session)@.browse_continuation_points,
                results.deep_view().len() == i,
                forall|j: int|
                    0 <= j < i ==> is_browse_result(
                        address_space@,
                        nodes[j],
                        max,
                        #[trigger] results.deep_view()[j],
                    ),
                session@ == old(session)@.with_points(
                    points_after_browses(
                        address_space@,
                        old(session)@.last_activity,
                        points,
                        nodes,
                        max,
                        results.deep_view(),
                        i as int,
                    ),
                ),
            decreases nodes_to_browse.len() - i,
        {
            let ghost before = results.deep_view();
            let node_to_browse = &nodes_to_browse[i];
            assert(node_to_browse@ == nodes[i as int]);
            let browse_result = Self::browse_node(
                session,
                address_space,
                0,
                node_to_browse,
                max_references_per_node,
            );
            let result = match browse_result {
                Ok(browse_result) => browse_result,
                Err(status) => BrowseResult {
                    status_code: status,
                    continuation_point: ByteString::null(),
                    references: None,
                },
            };
            results.push(result);
            proof {
                assert(results.deep_view() =~= before.push(result@));
                lemma_points_after_browses_ignores_later(
                    address_space@,
                    old(session)@.last_activity,
                    points,
                    nodes,
                    max,
                    before,
                    results.deep_view(),
                    i as int,
                );
            }
            i = i + 1;
        }
        results
    }

    /// Goes on from the continuation point `continuation_point`: drops the
    /// points that can no longer be used, then takes the first with that id
    /// out of the session and returns the next part of its result. A point
    /// can be used while the address space has not changed, and for as long
    /// after it was made as the session may be silent; the time is that of
    /// the last activity of the session.
    pub fn browse_from_continuation_point(
        session: &mut Session,
        address_space: &AddressSpace,
        continuation_point: &ByteString,
    ) -> (r: BrowseResult)
        ensures
            is_resume_result(
                old(session)@.moment(address_space@.last_modified),
                old(session)@.browse_continuation_points,
                continuation_point@,
                r@,
            ),
            final(session)@ == old(session)@.with_points(
                points_after_resume(
                    old(session)@.moment(address_space@.last_modified),
                    old(session)@.browse_continuation_points,
                    continuation_point@,
                    r@.continuation_point,
                ),
            ),
    {
        // Find the continuation point in the session
        session.remove_expired_browse_continuation_points(address_space);
        match session.find_browse_continuation_point(continuation_point) {
            Some(continuation_point) => {
                let starting_index = continuation_point.starting_index();
                // Use the existing result. This may result in another continuation point being created
                Self::reference_description_to_browse_result(
                    session,
                    address_space,
                    continuation_point.reference_descriptions().as_slice(),
                    starting_index,
                    continuation_point.max_references_per_node(),
                )
            },
            None => {
                // Not valid or missing
                BrowseResult {
                    status_code: StatusCode(BAD_CONTINUATION_POINT_INVALID),
                    continuation_point: ByteString::null(),
                    references: None,
                }
            },
        }
    }
}

/// The continuation points after the first `n` browses depend on the first
/// `n` results alone.
pub proof fn lemma_points_after_browses_ignores_later(
    space: AddressSpaceView,
    now: DateTime,
    points: Seq<BrowseContinuationPointView>,
    nodes: Seq<BrowseDescriptionView>,
    max: nat,
    results: Seq<BrowseResultView>,
    more: Seq<BrowseResultView>,
    n: int,
)
    requires
        0 <= n <= results.len() <= more.len(),
        forall|i: int| 0 <= i < n ==> results[i] == more[i],
    ensures
        points_after_browses(space, now, points, nodes, max, results, n) == points_after_browses(
            space,
            now,
            points,
            nodes,
            max,
            more,
            n,
        ),
    decreases n,
{
    if n > 0 {
        lemma_points_after_browses_ignores_later(space, now, points, nodes, max, results, more, n - 1);
    }
}


/// The continuation points after the first `n` resumptions depend on the
/// first `n` results alone.
pub proof fn lemma_points_after_resumes_ignores_later(
    moment: Moment,
    points: Seq<BrowseContinuationPointView>,
    ids: Seq<Option<Seq<u8>>>,
    results: Seq<BrowseResultView>,
    more: Seq<BrowseResultView>,
    n: int,
)
    requires
        0 <= n <= results.len() <= more.len(),
        forall|i: int| 0 <= i < n ==> results[i] == more[i],
    ensures
        points_after_resumes(moment, points, ids, results, n) == points_after_resumes(
            moment,
            points,
            ids,
            more,
            n,
        ),
    decreases n,
{
    if n > 0 {
        lemma_points_after_resumes_ignores_later(moment, points, ids, results, more, n - 1);
    }
}

/// Whether `response` answers a request with the handle `request_handle`
/// with a good outcome, the results `results` and no diagnostics.
pub open spec fn is_browse_response(
    message: SupportedMessageView,
    request_handle: u32,
    results: Option<Seq<BrowseResultView>>,
) -> bool {
    message matches SupportedMessageView::BrowseResponse(response) && response.response_header
        == ResponseHeaderView::answering(
        request_handle,
        response.response_header.timestamp,
        StatusCode(GOOD),
    ) && response.results == results && response.diagnostic_infos is None
}

/// Whether `response` answers a request to go on with the handle
/// `request_handle` with a good outcome, the results `results` and no
/// diagnostics.
pub open spec fn is_browse_next_response(
    message: SupportedMessageView,
    request_handle: u32,
    results: Option<Seq<BrowseResultView>>,
) -> bool {
    message matches SupportedMessageView::BrowseNextResponse(response) && response.response_header
        == ResponseHeaderView::answering(
        request_handle,
        response.response_header.timestamp,
        StatusCode(GOOD),
    ) && response.results == results && response.diagnostic_infos is None
}

/// Whether `response` answers a request to resolve paths with the handle
/// `request_handle` with a good outcome, the results `results` and no
/// diagnostics.
pub open spec fn is_translate_response(
    message: SupportedMessageView,
    request_handle: u32,
    results: Seq<BrowsePathResultView>,
) -> bool {
    message matches SupportedMessageView::TranslateBrowsePathsToNodeIdsResponse(response)
        && response.response_header == ResponseHeaderView::answering(
        request_handle,
        response.response_header.timestamp,
        StatusCode(GOOD),
    ) && response.results == Some(results) && response.diagnostic_infos is None
}

/// The results that a message with browse results carries.
pub open spec fn results_of(message: SupportedMessageView) -> Seq<BrowseResultView> {
    match message {
        SupportedMessageView::BrowseResponse(response) => match response.results {
            Some(results) => results,
            None => Seq::empty(),
        },
        SupportedMessageView::BrowseNextResponse(response) => match response.results {
            Some(results) => results,
            None => Seq::empty(),
        },
        _ => Seq::empty(),
    }
}

/// What a browse request is answered with, and the continuation points of
/// the session afterwards. Without nodes to browse there is nothing to do,
/// and views are not known: both are answered by a fault. Else the
/// response carries, in the order of the nodes, the result of browsing each,
/// and the session keeps a continuation point for each result that is not
/// complete.
pub open spec fn is_browse_outcome(
    space: AddressSpaceView,
    now: DateTime,
    points: Seq<BrowseContinuationPointView>,
    request: BrowseRequestView,
    message: SupportedMessageView,
    points_after: Seq<BrowseContinuationPointView>,
) -> bool {
    let handle = request.request_header.request_handle;
    let max = request.requested_max_references_per_node as nat;
    match request.nodes_to_browse {
        None => message.is_fault(handle, StatusCode(BAD_NOTHING_TO_DO)) && points_after == points,
        Some(nodes) => if !request.view.view_id.is_null() {
            message.is_fault(handle, StatusCode(BAD_VIEW_ID_UNKNOWN)) && points_after == points
        } else {
            let results = results_of(message);
            &&& is_browse_response(message, handle, Some(results))
            &&& results.len() == nodes.len()
            &&& forall|i: int|
                0 <= i < results.len() ==> is_browse_result(
                    space,
                    nodes[i],
                    max,
                    #[trigger] results[i],
                )
            &&& points_after == points_after_browses(
                space,
                now,
                points,
                nodes,
                max,
                results,
                nodes.len() as int,
            )
        },
    }
}

/// What a request to go on from continuation points is answered with, and
/// the continuation points of the session afterwards. Without points there
/// is nothing to do, which is answered by a fault. A request to release
/// drops the points and returns no results. Else the response carries, in
/// the order of the points, the next part of each result.
pub open spec fn is_browse_next_outcome(
    moment: Moment,
    points: Seq<BrowseContinuationPointView>,
    request: BrowseNextRequestView,
    message: SupportedMessageView,
    points_after: Seq<BrowseContinuationPointView>,
) -> bool {
    let handle = request.request_header.request_handle;
    match request.continuation_points {
        None => message.is_fault(handle, StatusCode(BAD_NOTHING_TO_DO)) && points_after == points,
        Some(ids) => if request.release_continuation_points {
            is_browse_next_response(message, handle, None) && points_after == other_points(
                points,
                ids,
            )
        } else {
            let results = results_of(message);
            &&& is_browse_next_response(message, handle, Some(results))
            &&& results.len() == ids.len()
            &&& forall|i: int|
                0 <= i < results.len() ==> is_resume_result(
                    moment,
                    points_after_resumes(moment, points, ids, results, i),
                    ids[i],
                    #[trigger] results[i],
                )
            &&& points_after == points_after_resumes(
                moment,
                points,
                ids,
                results,
                ids.len() as int,
            )
        },
    }
}

/// What a request to resolve browse paths is answered with. Without paths
/// there is nothing to do, which is answered by a fault. Else the response
/// carries the result of each path, in the order of the paths.
pub open spec fn is_translate_outcome(
    space: AddressSpaceView,
    request: TranslateBrowsePathsToNodeIdsRequestView,
    message: SupportedMessageView,
) -> bool {
    let handle = request.request_header.request_handle;
    match request.browse_paths {
        Some(paths) if paths.len() > 0 => is_translate_response(
            message,
            handle,
            Seq::new(paths.len(), |i: int| path_result(space, paths[i])),
        ),
        _ => message.is_fault(handle, StatusCode(BAD_NOTHING_TO_DO)),
    }
}

impl ViewService {
    /// Answers a browse request. Without nodes to browse there is nothing to
    /// do, and views are not known: both are answered by a fault. Else each
    /// node is browsed, and the response carries the results in the order of
    /// the nodes.
    pub fn browse(&self, session: &mut Session, address_space: &AddressSpace, request: BrowseRequest) -> (r:
        Result<SupportedMessage, StatusCode>)
        ensures
            r matches Ok(message) && is_browse_outcome(
                address_space@,
                old(session)@.last_activity,
                old(session)@.browse_continuation_points,
                request@,
                message@,
                final(session)@.browse_continuation_points,
            ),
            final(session)@ == old(session)@.with_points(final(session)@.browse_continuation_points),
    {
        let browse_results = match &request.nodes_to_browse {
            Some(nodes_to_browse) => {
                if !request.view.view_id.is_null() {
                    // Views are not supported
                    return Ok(
                        self.service_fault(&request.request_header, StatusCode(BAD_VIEW_ID_UNKNOWN)),
                    );
                }
                let nodes = nodes_to_browse.as_slice();
                assert(nodes.deep_view() =~= nodes_to_browse.deep_view());
                Some(
                    Self::browse_nodes(
                        session,
                        address_space,
                        nodes,
                        request.requested_max_references_per_node as usize,
                    ),
                )
            },
            None => {
                // Nothing to do
                return Ok(self.service_fault(&request.request_header, StatusCode(BAD_NOTHING_TO_DO)));
            },
        };
        let response = BrowseResponse {
            response_header: ResponseHeader::new_good(&request.request_header),
            results: browse_results,
            diagnostic_infos: None,
        };
        Ok(SupportedMessage::BrowseResponse(response))
    }

    /// Goes on from each of `continuation_points` in turn.
    fn browse_from_continuation_points(
        session: &mut Session,
        address_space: &AddressSpace,
        continuation_points: &[ByteString],
    ) -> (r: Vec<BrowseResult>)
        ensures
            r.deep_view().len() == continuation_points@.len(),
            forall|i: int|
                0 <= i < r.deep_view().len() ==> is_resume_result(
                    old(session)@.moment(address_space@.last_modified),
                    points_after_resumes(
                        old(session)@.moment(address_space@.last_modified),
                        old(session)@.browse_continuation_points,
                        continuation_points.deep_view(),
                        r.deep_view(),
                        i,
                    ),
                    continuation_points.deep_view()[i],
                    #[trigger] r.deep_view()[i],
                ),
            final(session)@ == old(session)@.with_points(
                points_after_resumes(
                    old(session)@.moment(address_space@.last_modified),
                    old(session)@.browse_continuation_points,
                    continuation_points.deep_view(),
                    r.deep_view(),
                    continuation_points@.len() as int,
                ),
            ),
    {
        let mut results: Vec<BrowseResult> = Vec::new();
        let mut i: usize = 0;
        let ghost ids = continuation_points.deep_view();
        let ghost stamp = old(session)@.moment(address_space@.last_modified);
        let ghost points = session@.browse_continuation_points;
        while i < continuation_points.len()
            invariant
                i <= continuation_points.len(),
                ids == continuation_points.deep_view(),
                ids.len() == continuation_points@.len(),
                stamp == old(session)@.moment(address_space@.last_modified),
                points == old(session)@.browse_continuation_points,
                results.deep_view().len() == i,
                forall|j: int|
                    0 <= j < i ==> is_resume_result(
                        stamp,
                        points_after_resumes(stamp, points, ids, results.deep_view(), j),
                        ids[j],
                        #[trigger] results.deep_view()[j],
                    ),
                session@ == old(session)@.with_points(
                    points_after_resumes(stamp, points, ids, results.deep_view(), i as int),
                ),
            decreases continuation_points.len() - i,
        {
            let ghost before = results.deep_view();
            let continuation_point = &continuation_points[i];
            assert(continuation_point@ == ids[i as int]);
            let result = Self::browse_from_continuation_point(
                session,
                address_space,
                continuation_point,
            );
            results.push(result);
            proof {
                let after = results.deep_view();
                assert(after =~= before.push(result@));
                assert forall|j: int| 0 <= j <= i implies points_after_resumes(
                    stamp,
                    points,
                    ids,
                    before,
                    j,
                ) == points_after_resumes(stamp, points, ids, after, j) by {
                    lemma_points_after_resumes_ignores_later(stamp, points, ids, before, after, j);
                }
            }
            i = i + 1;
        }
        results
    }

    /// Answers a request to go on from continuation points. Without points
    /// there is nothing to do, which is answered by a fault. A request to
    /// release drops the points and returns no results. Else the response
    /// carries, in the order of the points, the next part of each result.
    pub fn browse_next(
        &self,
        session: &mut Session,
        address_space: &AddressSpace,
        request: BrowseNextRequest,
    ) -> (r: Result<SupportedMessage, StatusCode>)
        ensures
            r matches Ok(message) && is_browse_next_outcome(
                old(session)@.moment(address_space@.last_modified),
                old(session)@.browse_continuation_points,
                request@,
                message@,
                final(session)@.browse_continuation_points,
            ),
            final(session)@ == old(session)@.with_points(final(session)@.browse_continuation_points),
    {
        match &request.continuation_points {
            None => Ok(self.service_fault(&request.request_header, StatusCode(BAD_NOTHING_TO_DO))),
            Some(continuation_points) => {
                let ids = continuation_points.as_slice();
                assert(ids.deep_view() =~= continuation_points.deep_view());
                let results = if request.release_continuation_points {
                    session.remove_browse_continuation_points(ids);
                    None
                } else {
                    // Iterate from the continuation point, assuming it is valid
                    Some(Self::browse_from_continuation_points(session, address_space, ids))
                };
                let response = BrowseNextResponse {
                    response_header: ResponseHeader::new_good(&request.request_header),
                    results,
                    diagnostic_infos: None,
                };
                Ok(SupportedMessage::BrowseNextResponse(response))
            },
        }
    }

    /// Resolves one browse path.
    pub fn translate_browse_path(address_space: &AddressSpace, browse_path: &BrowsePath) -> (r:
        BrowsePathResult)
        ensures
            r@ == path_result(address_space@, browse_path@),
    {
        if browse_path.relative_path.elements.is_none() {
            return BrowsePathResult { status_code: StatusCode(BAD_NOTHING_TO_DO), targets: None };
        }
        // Starting from the node_id, find paths
        match address_space.find_nodes_relative_path(
            &browse_path.starting_node,
            &browse_path.relative_path,
        ) {
            Err(status) => BrowsePathResult { status_code: status, targets: None },
            Ok(result) => {
                let targets = if result.len() > 0 {
                    let mut targets: Vec<BrowsePathTarget> = Vec::new();
                    let mut i: usize = 0;
                    while i < result.len()
                        invariant
                            i <= result.len(),
                            result.deep_view().len() == result.len(),
                            targets.deep_view().len() == i,
                            forall|j: int|
                                0 <= j < i ==> (#[trigger] targets.deep_view()[j]) == path_targets(
                                    result.deep_view(),
                                )[j],
                        decreases result.len() - i,
                    {
                        let ghost before = targets.deep_view();
                        assert(result[i as int]@ == result.deep_view()[i as int]);
                        let target = BrowsePathTarget {
                            target_id: ExpandedNodeId::new(result[i].clone()),
                            remaining_path_index: u32::MAX,
                        };
                        targets.push(target);
                        assert(targets.deep_view() =~= before.push(target@));
                        i = i + 1;
                    }
                    assert(targets.deep_view() =~= path_targets(result.deep_view()));
                    Some(targets)
                } else {
                    None
                };
                BrowsePathResult { status_code: StatusCode(GOOD), targets }
            },
        }
    }

    /// Answers a request to resolve browse paths. Without paths there is
    /// nothing to do, which is answered by a fault. Else the response
    /// carries the result of each path, in the order of the paths.
    pub fn translate_browse_paths_to_node_ids(
        &self,
        address_space: &AddressSpace,
        request: TranslateBrowsePathsToNodeIdsRequest,
    ) -> (r: Result<SupportedMessage, StatusCode>)
        ensures
            r matches Ok(message) && is_translate_outcome(address_space@, request@, message@),
    {
        let browse_paths = match &request.browse_paths {
            None => {
                return Ok(self.service_fault(&request.request_header, StatusCode(BAD_NOTHING_TO_DO)));
            },
            Some(browse_paths) => browse_paths,
        };
        if browse_paths.len() == 0 {
            return Ok(self.service_fault(&request.request_header, StatusCode(BAD_NOTHING_TO_DO)));
        }
        let ghost paths = browse_paths.deep_view();
        let mut results: Vec<BrowsePathResult> = Vec::new();
        let mut i: usize = 0;
        while i < browse_paths.len()
            invariant
                i <= browse_paths.len(),
                paths == browse_paths.deep_view(),
                paths.len() == browse_paths.len(),
                results.deep_view().len() == i,
                forall|j: int|
                    0 <= j < i ==> (#[trigger] results.deep_view()[j]) == path_result(
                        address_space@,
                        paths[j],
                    ),
            decreases browse_paths.len() - i,
        {
            let ghost before = results.deep_view();
            assert(browse_paths[i as int]@ == paths[i as int]);
            let result = Self::translate_browse_path(address_space, &browse_paths[i]);
            results.push(result);
            assert(results.deep_view() =~= before.push(result@));
            i = i + 1;
        }
        assert(results.deep_view() =~= Seq::new(
            paths.len(),
            |i: int| path_result(address_space@, paths[i]),
        ));
        let response = TranslateBrowsePathsToNodeIdsResponse {
            response_header: ResponseHeader::new_good(&request.request_header),
            results: Some(results),
            diagnostic_infos: None,
        };
        Ok(SupportedMessage::TranslateBrowsePathsToNodeIdsResponse(response))
    }
}

} // verus!
