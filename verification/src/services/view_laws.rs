//! What holds of browsing, whatever the address space and the session.

use crate::address_space::{AddressSpaceView, ReferenceView};
use crate::basic_types::{ExpandedNodeIdView, LocalizedTextView, QualifiedNameView};
use crate::continuation_point::{
    BrowseContinuationPointView, Moment, TICKS_PER_MILLISECOND,
};
use crate::date_time::DateTime;
use crate::node_id::NodeIdView;
use crate::service_types::view_messages::{BrowseDescriptionView, NodeClass, ReferenceDescriptionView};
use crate::services::view::{
    browse_result, describe, descriptions_upto, failed, node_descriptions, page,
    points_after_browse, points_after_page, points_after_resume, resume_result,
};
use crate::session::{
    other_points, other_points_upto, point_position, point_position_from, valid_points,
    valid_points_upto,
};
use crate::status_codes::{
    StatusCode, BAD_CONTINUATION_POINT_INVALID, BAD_NODE_ID_UNKNOWN, GOOD,
};
use vstd::prelude::*;

verus! {

/// Browsing a node that the address space does not hold gives
/// `BAD_NODE_ID_UNKNOWN` and keeps no continuation point.
pub proof fn lemma_unknown_node_is_not_browsed(
    space: AddressSpaceView,
    points: Seq<BrowseContinuationPointView>,
    node: BrowseDescriptionView,
    max: nat,
    id: Option<Seq<u8>>,
    now: DateTime,
)
    requires
        !space.node_exists(node.node_id),
    ensures
        browse_result(space, node, max, id) == failed(BAD_NODE_ID_UNKNOWN),
        points_after_browse(space, now, points, node, max, id) == points,
{
}

/// What a browse returns of a reference to `node_id` where the result mask
/// selects nothing: the target alone, the direction forward and every other
/// field null.
pub open spec fn bare_description(node_id: NodeIdView) -> ReferenceDescriptionView {
    ReferenceDescriptionView {
        node_id: ExpandedNodeIdView::local(node_id),
        reference_type_id: NodeIdView::null(),
        is_forward: true,
        node_class: NodeClass::Unspecified,
        browse_name: QualifiedNameView { namespace_index: 0, name: None },
        display_name: LocalizedTextView { locale: None, text: None },
        type_definition: ExpandedNodeIdView::local(NodeIdView::null()),
    }
}

/// With the result mask 0 a reference is described by its target alone.
pub proof fn lemma_empty_mask_describes_target_alone(
    space: AddressSpaceView,
    reference: ReferenceView,
    is_forward: bool,
)
    ensures
        describe(space, reference, is_forward, 0) == bare_description(reference.node_id),
{
    assert(0u32 & 1 == 0 && 0u32 & 2 == 0 && 0u32 & 4 == 0 && 0u32 & 8 == 0 && 0u32 & 16 == 0
        && 0u32 & 32 == 0) by (bit_vector);
}

/// With the result mask 0 every description that a browse returns holds the
/// target alone.
pub proof fn lemma_empty_mask_descriptions(
    space: AddressSpaceView,
    references: Seq<ReferenceView>,
    inverse_start: nat,
    starting_index: nat,
    node_class_mask: u32,
    n: int,
)
    requires
        n <= references.len(),
    ensures
        forall|i: int|
            0 <= i < descriptions_upto(
                space,
                references,
                inverse_start,
                starting_index,
                node_class_mask,
                0,
                n,
            ).len() ==> {
                let description = #[trigger] descriptions_upto(
                    space,
                    references,
                    inverse_start,
                    starting_index,
                    node_class_mask,
                    0,
                    n,
                )[i];
                description == bare_description(description.node_id.node_id)
            },
    decreases n,
{
    if n > 0 {
        lemma_empty_mask_descriptions(
            space,
            references,
            inverse_start,
            starting_index,
            node_class_mask,
            n - 1,
        );
        lemma_empty_mask_describes_target_alone(space, references[n - 1], n - 1 < inverse_start);
    }
}

/// With the result mask 0 a browse of a node returns descriptions in which
/// every field but the target is null.
pub proof fn lemma_empty_mask_browse(
    space: AddressSpaceView,
    node: BrowseDescriptionView,
    starting_index: nat,
)
    requires
        node.result_mask == 0,
    ensures
        forall|i: int|
            0 <= i < node_descriptions(space, node, starting_index).len() ==> {
                let description = #[trigger] node_descriptions(space, node, starting_index)[i];
                description == bare_description(description.node_id.node_id)
            },
{
    let filter = crate::address_space::reference_filter(node.reference_type_id, node.include_subtypes);
    let references = space.references_by_direction(node.node_id, node.browse_direction, filter);
    lemma_empty_mask_descriptions(
        space,
        references,
        space.inverse_start(node.node_id, node.browse_direction, filter),
        starting_index,
        node.node_class_mask,
        references.len() as int,
    );
}

/// The points that can still be used are points of the session, and each
/// can still be used.
pub proof fn lemma_valid_points_are_points(
    points: Seq<BrowseContinuationPointView>,
    moment: Moment,
    n: int,
)
    requires
        n <= points.len(),
    ensures
        forall|i: int|
            0 <= i < valid_points_upto(points, moment, n).len() ==> points.contains(
                #[trigger] valid_points_upto(points, moment, n)[i],
            ) && valid_points_upto(points, moment, n)[i].is_valid(moment),
    decreases n,
{
    if n > 0 {
        lemma_valid_points_are_points(points, moment, n - 1);
        let before = valid_points_upto(points, moment, n - 1);
        let now = valid_points_upto(points, moment, n);
        assert forall|i: int| 0 <= i < now.len() implies points.contains(#[trigger] now[i])
            && now[i].is_valid(moment) by {
            if i < before.len() {
                assert(now[i] == before[i]);
            } else {
                assert(now[i] == points[n - 1]);
            }
        }
    }
}

/// Of points that can all still be used, none is dropped.
pub proof fn lemma_valid_points_of_valid(
    points: Seq<BrowseContinuationPointView>,
    moment: Moment,
    n: int,
)
    requires
        0 <= n <= points.len(),
        forall|i: int| 0 <= i < points.len() ==> (#[trigger] points[i]).is_valid(moment),
    ensures
        valid_points_upto(points, moment, n) == points.take(n),
    decreases n,
{
    if n > 0 {
        lemma_valid_points_of_valid(points, moment, n - 1);
        assert(points.take(n - 1).push(points[n - 1]) =~= points.take(n));
    } else {
        assert(points.take(0) =~= Seq::<BrowseContinuationPointView>::empty());
    }
}

/// The points that can still be used among the first of a sequence do not
/// depend on what follows them.
pub proof fn lemma_valid_points_of_prefix(
    points: Seq<BrowseContinuationPointView>,
    point: BrowseContinuationPointView,
    moment: Moment,
    n: int,
)
    requires
        n <= points.len(),
    ensures
        valid_points_upto(points.push(point), moment, n) == valid_points_upto(
            points,
            moment,
            n,
        ),
    decreases n,
{
    if n > 0 {
        lemma_valid_points_of_prefix(points, point, moment, n - 1);
    }
}

/// A point is not found among points none of which has its id.
pub proof fn lemma_absent_point_is_not_found(
    points: Seq<BrowseContinuationPointView>,
    id: Option<Seq<u8>>,
    from: int,
)
    requires
        0 <= from,
        forall|i: int| 0 <= i < points.len() ==> (#[trigger] points[i]).id != id,
    ensures
        point_position_from(points, id, from) is None,
    decreases points.len() - from,
{
    if from < points.len() {
        lemma_absent_point_is_not_found(points, id, from + 1);
    }
}

/// A point that is added behind points none of which has its id is found at
/// the end.
pub proof fn lemma_added_point_is_found(
    points: Seq<BrowseContinuationPointView>,
    point: BrowseContinuationPointView,
    from: int,
)
    requires
        0 <= from <= points.len(),
        forall|i: int| 0 <= i < points.len() ==> (#[trigger] points[i]).id != point.id,
    ensures
        point_position_from(points.push(point), point.id, from) == Some(points.len() as int),
    decreases points.len() - from,
{
    if from < points.len() {
        lemma_added_point_is_found(points, point, from + 1);
    }
}

/// A browse at the time `made` that finds more than `max` references, but
/// no more than twice as many, returns the first `max` and a continuation
/// point; going on from that point at `moment`, while the point can still
/// be used, returns the rest and no continuation point; going on from it
/// once more gives `BAD_CONTINUATION_POINT_INVALID`. This holds whatever
/// points the session held before, where the address space does not change
/// in between.
pub proof fn lemma_paging(
    points: Seq<BrowseContinuationPointView>,
    descriptions: Seq<ReferenceDescriptionView>,
    max: nat,
    made: DateTime,
    moment: Moment,
    id: Option<Seq<u8>>,
    second_id: Option<Seq<u8>>,
    third_id: Option<Seq<u8>>,
)
    requires
        0 < max < descriptions.len() <= 2 * max,
        descriptions.len() <= usize::MAX,
        moment.now.ticks - made.ticks <= moment.lifetime * TICKS_PER_MILLISECOND,
    ensures
        ({
            let first = page(descriptions, 0, max, id);
            let kept = points_after_page(
                points,
                descriptions,
                0,
                max,
                id,
                moment.last_modified,
                made,
            );
            let second = resume_result(moment, kept, id, second_id);
            let left = points_after_resume(moment, kept, id, second_id);
            let third = resume_result(moment, left, id, third_id);
            &&& first.status_code == StatusCode(GOOD)
            &&& first.references == Some(descriptions.subrange(0, max as int))
            &&& first.references.unwrap().len() == max
            &&& first.continuation_point == id
            &&& second.status_code == StatusCode(GOOD)
            &&& second.references == Some(
                descriptions.subrange(max as int, descriptions.len() as int),
            )
            &&& second.references.unwrap().len() == descriptions.len() - max
            &&& second.continuation_point is None
            &&& third == failed(BAD_CONTINUATION_POINT_INVALID)
        }),
{
    let point = BrowseContinuationPointView {
        id,
        address_space_last_modified: moment.last_modified,
        created_at: made,
        max_references_per_node: max as usize,
        starting_index: max as usize,
        reference_descriptions: descriptions,
    };
    let others = other_points(points, seq![id]);
    lemma_other_points_have_other_ids(points, seq![id], points.len() as int);
    assert forall|i: int| 0 <= i < others.len() implies (#[trigger] others[i]).id != id by {
        assert(seq![id][0] == id);
    }
    let kept = others.push(point);
    assert(points_after_page(points, descriptions, 0, max, id, moment.last_modified, made) == kept);
    let still = valid_points(others, moment);
    lemma_valid_points_are_points(others, moment, others.len() as int);
    lemma_valid_points_of_prefix(others, point, moment, others.len() as int);
    let valid = valid_points(kept, moment);
    assert(point.is_valid(moment));
    assert(valid == still.push(point));
    assert forall|i: int| 0 <= i < still.len() implies (#[trigger] still[i]).id != id by {
        assert(others.contains(still[i]));
    }
    lemma_added_point_is_found(still, point, 0);
    assert(valid.remove(still.len() as int) =~= still);
    let left = points_after_resume(moment, kept, id, second_id);
    assert(left == still);
    lemma_valid_points_of_valid(still, moment, still.len() as int);
    assert(still.take(still.len() as int) =~= still);
    lemma_absent_point_is_not_found(still, id, 0);
}

/// A continuation point that was made at the time `made` can no longer be
/// used once more time has passed than a point can be used for: going on
/// from it then gives `BAD_CONTINUATION_POINT_INVALID`, and the point is
/// gone.
pub proof fn lemma_old_points_are_gone(
    points: Seq<BrowseContinuationPointView>,
    descriptions: Seq<ReferenceDescriptionView>,
    max: nat,
    made: DateTime,
    moment: Moment,
    id: Option<Seq<u8>>,
    new_id: Option<Seq<u8>>,
)
    requires
        0 < max < descriptions.len(),
        moment.now.ticks - made.ticks > moment.lifetime * TICKS_PER_MILLISECOND,
    ensures
        ({
            let kept = points_after_page(
                points,
                descriptions,
                0,
                max,
                id,
                moment.last_modified,
                made,
            );
            &&& resume_result(moment, kept, id, new_id) == failed(BAD_CONTINUATION_POINT_INVALID)
            &&& point_position(points_after_resume(moment, kept, id, new_id), id) is None
        }),
{
    let point = BrowseContinuationPointView {
        id,
        address_space_last_modified: moment.last_modified,
        created_at: made,
        max_references_per_node: max as usize,
        starting_index: max as usize,
        reference_descriptions: descriptions,
    };
    let others = other_points(points, seq![id]);
    lemma_other_points_have_other_ids(points, seq![id], points.len() as int);
    assert forall|i: int| 0 <= i < others.len() implies (#[trigger] others[i]).id != id by {
        assert(seq![id][0] == id);
    }
    let kept = others.push(point);
    assert(points_after_page(points, descriptions, 0, max, id, moment.last_modified, made) == kept);
    let still = valid_points(others, moment);
    lemma_valid_points_are_points(others, moment, others.len() as int);
    lemma_valid_points_of_prefix(others, point, moment, others.len() as int);
    assert(!point.is_valid(moment));
    assert(valid_points(kept, moment) == still);
    assert forall|i: int| 0 <= i < still.len() implies (#[trigger] still[i]).id != id by {
        assert(others.contains(still[i]));
    }
    lemma_absent_point_is_not_found(still, id, 0);
}

/// The points that are left after a release are points whose id is none of
/// the released ones.
pub proof fn lemma_other_points_have_other_ids(
    points: Seq<BrowseContinuationPointView>,
    ids: Seq<Option<Seq<u8>>>,
    n: int,
)
    requires
        n <= points.len(),
    ensures
        forall|i: int|
            0 <= i < other_points_upto(points, ids, n).len() ==> !ids.contains(
                (#[trigger] other_points_upto(points, ids, n)[i]).id,
            ),
    decreases n,
{
    if n > 0 {
        lemma_other_points_have_other_ids(points, ids, n - 1);
    }
}

/// After a release no point with one of the released ids is left: going on
/// from such an id finds nothing.
pub proof fn lemma_released_points_are_gone(
    points: Seq<BrowseContinuationPointView>,
    ids: Seq<Option<Seq<u8>>>,
    id: Option<Seq<u8>>,
    moment: Moment,
    new_id: Option<Seq<u8>>,
)
    requires
        ids.contains(id),
    ensures
        point_position(other_points(points, ids), id) is None,
        resume_result(moment, other_points(points, ids), id, new_id) == failed(
            BAD_CONTINUATION_POINT_INVALID,
        ),
{
    let left = other_points(points, ids);
    lemma_other_points_have_other_ids(points, ids, points.len() as int);
    lemma_absent_point_is_not_found(left, id, 0);
    let valid = valid_points(left, moment);
    lemma_valid_points_are_points(left, moment, left.len() as int);
    assert forall|i: int| 0 <= i < valid.len() implies (#[trigger] valid[i]).id != id by {
        assert(left.contains(valid[i]));
    }
    lemma_absent_point_is_not_found(valid, id, 0);
}

} // verus!
