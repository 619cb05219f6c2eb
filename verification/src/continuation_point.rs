//! Continuation points: where a browse that returned only a part goes on.

use crate::address_space::AddressSpace;
use crate::byte_string::ByteString;
use crate::date_time::DateTime;
use crate::service_types::view_messages::{ReferenceDescription, ReferenceDescriptionView};
use vstd::prelude::*;

verus! {

/// Ticks in one millisecond.
pub const TICKS_PER_MILLISECOND: i64 = 10_000;

/// What continuation points are judged against: the stamp of the address
/// space, the time, and for how many milliseconds a point can be used.
pub struct Moment {
    /// The stamp of the address space.
    pub last_modified: u64,
    /// The time.
    pub now: DateTime,
    /// For how many milliseconds a point can be used after it was made.
    pub lifetime: u32,
}

/// The rest of the result of a browse, kept for the client to ask for. The
/// position to go on from is never behind the end of the result.
#[derive(Debug, PartialEq)]
pub struct BrowseContinuationPoint {
    id: ByteString,
    address_space_last_modified: u64,
    created_at: DateTime,
    max_references_per_node: usize,
    starting_index: usize,
    reference_descriptions: Vec<ReferenceDescription>,
}

/// The value that a `BrowseContinuationPoint` stands for.
pub struct BrowseContinuationPointView {
    /// The id by which the client names the point.
    pub id: Option<Seq<u8>>,
    /// The stamp of the address space at the time of the browse.
    pub address_space_last_modified: u64,
    /// The time of the browse.
    pub created_at: DateTime,
    /// The most references to return at once; 0 for no limit.
    pub max_references_per_node: usize,
    /// The position in the result to go on from.
    pub starting_index: usize,
    /// The whole result of the browse.
    pub reference_descriptions: Seq<ReferenceDescriptionView>,
}

impl DeepView for BrowseContinuationPoint {
    type V = BrowseContinuationPointView;

    closed spec fn deep_view(&self) -> BrowseContinuationPointView {
        BrowseContinuationPointView {
            id: self.id@,
            address_space_last_modified: self.address_space_last_modified,
            created_at: self.created_at,
            max_references_per_node: self.max_references_per_node,
            starting_index: self.starting_index,
            reference_descriptions: self.reference_descriptions.deep_view(),
        }
    }
}

impl View for BrowseContinuationPoint {
    type V = BrowseContinuationPointView;

    open spec fn view(&self) -> BrowseContinuationPointView {
        self.deep_view()
    }
}

impl BrowseContinuationPointView {
    /// Whether the point can still be used at `moment`: the address space
    /// has not changed since the browse, and no more time has passed since
    /// than a point can be used for.
    pub open spec fn is_valid(self, moment: Moment) -> bool {
        &&& self.address_space_last_modified == moment.last_modified
        &&& moment.now.ticks - self.created_at.ticks <= moment.lifetime * TICKS_PER_MILLISECOND
    }
}

impl BrowseContinuationPoint {
    #[verifier::type_invariant]
    spec fn inv(&self) -> bool {
        self.starting_index <= self.reference_descriptions@.len()
    }

    /// A point with the given parts.
    pub fn new(
        id: ByteString,
        address_space_last_modified: u64,
        created_at: DateTime,
        max_references_per_node: usize,
        starting_index: usize,
        reference_descriptions: Vec<ReferenceDescription>,
    ) -> (r: BrowseContinuationPoint)
        requires
            starting_index <= reference_descriptions@.len(),
        ensures
            r@ == (BrowseContinuationPointView {
                id: id@,
                address_space_last_modified,
                created_at,
                max_references_per_node,
                starting_index,
                reference_descriptions: reference_descriptions.deep_view(),
            }),
    {
        BrowseContinuationPoint {
            id,
            address_space_last_modified,
            created_at,
            max_references_per_node,
            starting_index,
            reference_descriptions,
        }
    }

    /// The id by which the client names the point.
    pub fn id(&self) -> (r: &ByteString)
        ensures
            r@ == self@.id,
    {
        &self.id
    }

    /// The stamp of the address space at the time of the browse.
    pub fn address_space_last_modified(&self) -> (r: u64)
        ensures
            r == self@.address_space_last_modified,
    {
        self.address_space_last_modified
    }

    /// The time of the browse.
    pub fn created_at(&self) -> (r: DateTime)
        ensures
            r == self@.created_at,
    {
        self.created_at
    }

    /// The most references to return at once; 0 for no limit.
    pub fn max_references_per_node(&self) -> (r: usize)
        ensures
            r == self@.max_references_per_node,
    {
        self.max_references_per_node
    }

    /// The position in the result to go on from, which is not behind its end.
    pub fn starting_index(&self) -> (r: usize)
        ensures
            r == self@.starting_index,
            r <= self@.reference_descriptions.len(),
    {
        proof {
            use_type_invariant(self);
        }
        self.starting_index
    }

    /// The whole result of the browse.
    pub fn reference_descriptions(&self) -> (r: &Vec<ReferenceDescription>)
        ensures
            r.deep_view() == self@.reference_descriptions,
    {
        &self.reference_descriptions
    }

    /// Whether the point can still be used with `address_space` at the time
    /// `now`, where a point can be used for `lifetime` milliseconds.
    pub fn is_valid_browse_continuation_point(
        &self,
        address_space: &AddressSpace,
        now: &DateTime,
        lifetime: u32,
    ) -> (r: bool)
        ensures
            r == self@.is_valid(
                Moment { last_modified: address_space@.last_modified, now: *now, lifetime },
            ),
    {
        let age: i128 = now.ticks as i128 - self.created_at.ticks as i128;
        self.address_space_last_modified == address_space.last_modified() && age <= (
        lifetime as i128) * 10_000
    }
}

} // verus!
