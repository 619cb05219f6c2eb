//! Paths through the address space, by reference type and name.

use crate::encoding::{
    byte_len_array, get, put, put_last, BinaryEncoder, DecodingLimits, EncodingError, Parsed,
    Reader,
};
use crate::basic_types::{QualifiedName, QualifiedNameView};
use crate::node_id::{NodeId, NodeIdView};
use vstd::prelude::*;

verus! {

/// One step of a path: the references to follow and the name of the target.
#[derive(Debug, PartialEq)]
pub struct RelativePathElement {
    /// The type of reference to follow; null for any.
    pub reference_type_id: NodeId,
    /// Whether to follow references against their direction.
    pub is_inverse: bool,
    /// Whether subtypes of the reference type count.
    pub include_subtypes: bool,
    /// The browse name of the node to step to.
    pub target_name: QualifiedName,
}

/// The value that a `RelativePathElement` stands for.
pub struct RelativePathElementView {
    pub reference_type_id: NodeIdView,
    pub is_inverse: bool,
    pub include_subtypes: bool,
    pub target_name: QualifiedNameView,
}

impl DeepView for RelativePathElement {
    type V = RelativePathElementView;

    open spec fn deep_view(&self) -> RelativePathElementView {
        RelativePathElementView {
            reference_type_id: self.reference_type_id.deep_view(),
            is_inverse: self.is_inverse.deep_view(),
            include_subtypes: self.include_subtypes.deep_view(),
            target_name: self.target_name.deep_view(),
        }
    }
}

impl View for RelativePathElement {
    type V = RelativePathElementView;

    open spec fn view(&self) -> RelativePathElementView {
        self.deep_view()
    }
}

impl Clone for RelativePathElement {
    fn clone(&self) -> (r: RelativePathElement)
        ensures
            r@ == self@,
    {
        RelativePathElement {
            reference_type_id: self.reference_type_id.clone(),
            is_inverse: self.is_inverse.clone(),
            include_subtypes: self.include_subtypes.clone(),
            target_name: self.target_name.clone(),
        }
    }
}

impl RelativePathElementView {
    /// The fields in the order in which they travel.
    pub open spec fn fields(self) -> (NodeIdView, (bool, (bool, QualifiedNameView))) {
        (self.reference_type_id, (self.is_inverse, (self.include_subtypes, self.target_name)))
    }

    /// The value with the given fields.
    pub open spec fn of_fields(t: (NodeIdView, (bool, (bool, QualifiedNameView)))) -> RelativePathElementView {
        RelativePathElementView {
            reference_type_id: t.0,
            is_inverse: t.1.0,
            include_subtypes: t.1.1.0,
            target_name: t.1.1.1,
        }
    }
}

/// A path element is its fields one after the other.
impl BinaryEncoder for RelativePathElement {
    open spec fn wire(v: RelativePathElementView) -> Seq<u8> {
        <(NodeId, (bool, (bool, QualifiedName)))>::wire(v.fields())
    }

    open spec fn parse(bytes: Seq<u8>, limits: DecodingLimits) -> Parsed<RelativePathElementView> {
        match <(NodeId, (bool, (bool, QualifiedName)))>::parse(bytes, limits) {
            Err(e) => Err(e),
            Ok((t, n)) => Ok((RelativePathElementView::of_fields(t), n)),
        }
    }

    open spec fn encodable(v: RelativePathElementView) -> bool {
        <(NodeId, (bool, (bool, QualifiedName)))>::encodable(v.fields())
    }

    open spec fn within(v: RelativePathElementView, limits: DecodingLimits) -> bool {
        <(NodeId, (bool, (bool, QualifiedName)))>::within(v.fields(), limits)
    }

    proof fn lemma_parse_wire(v: RelativePathElementView, rest: Seq<u8>, limits: DecodingLimits) {
        <(NodeId, (bool, (bool, QualifiedName)))>::lemma_parse_wire(v.fields(), rest, limits);
    }

    proof fn lemma_parse_truncated(v: RelativePathElementView, k: int, limits: DecodingLimits) {
        <(NodeId, (bool, (bool, QualifiedName)))>::lemma_parse_truncated(v.fields(), k, limits);
    }

    proof fn lemma_parse_bound(bytes: Seq<u8>, limits: DecodingLimits) {
        <(NodeId, (bool, (bool, QualifiedName)))>::lemma_parse_bound(bytes, limits);
    }

    fn byte_len(&self) -> (n: usize) {
        let mut size: usize = 0;
        size += self.reference_type_id.byte_len();
        size += self.is_inverse.byte_len();
        size += self.include_subtypes.byte_len();
        size += self.target_name.byte_len();
        size
    }

    fn encode(&self, stream: &mut Vec<u8>) -> (r: Result<usize, EncodingError>) {
        let ghost start = stream@;
        let ghost total = Self::wire(self@);
        let ghost t = self@.fields();
        let size: usize = 0;
        let size = put(&self.reference_type_id, stream, size, Ghost(start), Ghost(total), Ghost(<(bool, (bool, QualifiedName))>::wire(t.1)))?;
        let size = put(&self.is_inverse, stream, size, Ghost(start), Ghost(total), Ghost(<(bool, QualifiedName)>::wire(t.1.1)))?;
        let size = put(&self.include_subtypes, stream, size, Ghost(start), Ghost(total), Ghost(QualifiedName::wire(t.1.1.1)))?;
        let size = put_last(&self.target_name, stream, size, Ghost(start), Ghost(total))?;
        Ok(size)
    }

    fn decode(stream: &mut Reader, limits: &DecodingLimits) -> (r: Result<Self, EncodingError>) {
        let ghost start = stream@;
        let ghost taken = 0int;
        assert(start.skip(0) =~= start);
        let ghost unread = stream@;
        let reference_type_id = get::<NodeId>(stream, limits, Ghost(start), Ghost(taken))?;
        proof {
            taken = taken + NodeId::parse(unread, *limits).unwrap().1;
        }
        let ghost unread = stream@;
        let is_inverse = get::<bool>(stream, limits, Ghost(start), Ghost(taken))?;
        proof {
            taken = taken + bool::parse(unread, *limits).unwrap().1;
        }
        let ghost unread = stream@;
        let include_subtypes = get::<bool>(stream, limits, Ghost(start), Ghost(taken))?;
        proof {
            taken = taken + bool::parse(unread, *limits).unwrap().1;
        }
        let ghost unread = stream@;
        let target_name = get::<QualifiedName>(stream, limits, Ghost(start), Ghost(taken))?;
        proof {
            taken = taken + QualifiedName::parse(unread, *limits).unwrap().1;
        }
        Ok(RelativePathElement { reference_type_id, is_inverse, include_subtypes, target_name })
    }
}

/// A sequence of steps from a starting node.
#[derive(Debug, PartialEq, Clone)]
pub struct RelativePath {
    pub elements: Option<Vec<RelativePathElement>>,
}

/// The value that a `RelativePath` stands for.
pub struct RelativePathView {
    pub elements: Option<Seq<RelativePathElementView>>,
}

impl DeepView for RelativePath {
    type V = RelativePathView;

    open spec fn deep_view(&self) -> RelativePathView {
        RelativePathView {
            elements: self.elements.deep_view(),
        }
    }
}

impl View for RelativePath {
    type V = RelativePathView;

    open spec fn view(&self) -> RelativePathView {
        self.deep_view()
    }
}

impl RelativePathView {
    /// The fields in the order in which they travel.
    pub open spec fn fields(self) -> Option<Seq<RelativePathElementView>> {
        self.elements
    }

    /// The value with the given fields.
    pub open spec fn of_fields(t: Option<Seq<RelativePathElementView>>) -> RelativePathView {
        RelativePathView {
            elements: t,
        }
    }
}

/// A relative path is the array of its elements.
impl BinaryEncoder for RelativePath {
    open spec fn wire(v: RelativePathView) -> Seq<u8> {
        <Option<Vec<RelativePathElement>>>::wire(v.fields())
    }

    open spec fn parse(bytes: Seq<u8>, limits: DecodingLimits) -> Parsed<RelativePathView> {
        match <Option<Vec<RelativePathElement>>>::parse(bytes, limits) {
            Err(e) => Err(e),
            Ok((t, n)) => Ok((RelativePathView::of_fields(t), n)),
        }
    }

    open spec fn encodable(v: RelativePathView) -> bool {
        <Option<Vec<RelativePathElement>>>::encodable(v.fields())
    }

    open spec fn within(v: RelativePathView, limits: DecodingLimits) -> bool {
        <Option<Vec<RelativePathElement>>>::within(v.fields(), limits)
    }

    proof fn lemma_parse_wire(v: RelativePathView, rest: Seq<u8>, limits: DecodingLimits) {
        <Option<Vec<RelativePathElement>>>::lemma_parse_wire(v.fields(), rest, limits);
    }

    proof fn lemma_parse_truncated(v: RelativePathView, k: int, limits: DecodingLimits) {
        <Option<Vec<RelativePathElement>>>::lemma_parse_truncated(v.fields(), k, limits);
    }

    proof fn lemma_parse_bound(bytes: Seq<u8>, limits: DecodingLimits) {
        <Option<Vec<RelativePathElement>>>::lemma_parse_bound(bytes, limits);
    }

    fn byte_len(&self) -> (n: usize) {
        let mut size: usize = 0;
        size += byte_len_array(&self.elements);
        size
    }

    fn encode(&self, stream: &mut Vec<u8>) -> (r: Result<usize, EncodingError>) {
        let ghost start = stream@;
        let ghost total = Self::wire(self@);
        let size: usize = 0;
        let size = put_last(&self.elements, stream, size, Ghost(start), Ghost(total))?;
        Ok(size)
    }

    fn decode(stream: &mut Reader, limits: &DecodingLimits) -> (r: Result<Self, EncodingError>) {
        let ghost start = stream@;
        let ghost taken = 0int;
        assert(start.skip(0) =~= start);
        let ghost unread = stream@;
        let elements = get::<Option<Vec<RelativePathElement>>>(stream, limits, Ghost(start), Ghost(taken))?;
        proof {
            taken = taken + <Option<Vec<RelativePathElement>>>::parse(unread, *limits).unwrap().1;
        }
        Ok(RelativePath { elements })
    }
}

/// A starting node and a path from it.
#[derive(Debug, PartialEq, Clone)]
pub struct BrowsePath {
    pub starting_node: NodeId,
    pub relative_path: RelativePath,
}

/// The value that a `BrowsePath` stands for.
pub struct BrowsePathView {
    pub starting_node: NodeIdView,
    pub relative_path: RelativePathView,
}

impl DeepView for BrowsePath {
    type V = BrowsePathView;

    open spec fn deep_view(&self) -> BrowsePathView {
        BrowsePathView {
            starting_node: self.starting_node.deep_view(),
            relative_path: self.relative_path.deep_view(),
        }
    }
}

impl View for BrowsePath {
    type V = BrowsePathView;

    open spec fn view(&self) -> BrowsePathView {
        self.deep_view()
    }
}

impl BrowsePathView {
    /// The fields in the order in which they travel.
    pub open spec fn fields(self) -> (NodeIdView, RelativePathView) {
        (self.starting_node, self.relative_path)
    }

    /// The value with the given fields.
    pub open spec fn of_fields(t: (NodeIdView, RelativePathView)) -> BrowsePathView {
        BrowsePathView {
            starting_node: t.0,
            relative_path: t.1,
        }
    }
}

/// A browse path is its starting node, then its relative path.
impl BinaryEncoder for BrowsePath {
    open spec fn wire(v: BrowsePathView) -> Seq<u8> {
        <(NodeId, RelativePath)>::wire(v.fields())
    }

    open spec fn parse(bytes: Seq<u8>, limits: DecodingLimits) -> Parsed<BrowsePathView> {
        match <(NodeId, RelativePath)>::parse(bytes, limits) {
            Err(e) => Err(e),
            Ok((t, n)) => Ok((BrowsePathView::of_fields(t), n)),
        }
    }

    open spec fn encodable(v: BrowsePathView) -> bool {
        <(NodeId, RelativePath)>::encodable(v.fields())
    }

    open spec fn within(v: BrowsePathView, limits: DecodingLimits) -> bool {
        <(NodeId, RelativePath)>::within(v.fields(), limits)
    }

    proof fn lemma_parse_wire(v: BrowsePathView, rest: Seq<u8>, limits: DecodingLimits) {
        <(NodeId, RelativePath)>::lemma_parse_wire(v.fields(), rest, limits);
    }

    proof fn lemma_parse_truncated(v: BrowsePathView, k: int, limits: DecodingLimits) {
        <(NodeId, RelativePath)>::lemma_parse_truncated(v.fields(), k, limits);
    }

    proof fn lemma_parse_bound(bytes: Seq<u8>, limits: DecodingLimits) {
        <(NodeId, RelativePath)>::lemma_parse_bound(bytes, limits);
    }

    fn byte_len(&self) -> (n: usize) {
        let mut size: usize = 0;
        size += self.starting_node.byte_len();
        size += self.relative_path.byte_len();
        size
    }

    fn encode(&self, stream: &mut Vec<u8>) -> (r: Result<usize, EncodingError>) {
        let ghost start = stream@;
        let ghost total = Self::wire(self@);
        let ghost t = self@.fields();
        let size: usize = 0;
        let size = put(&self.starting_node, stream, size, Ghost(start), Ghost(total), Ghost(RelativePath::wire(t.1)))?;
        let size = put_last(&self.relative_path, stream, size, Ghost(start), Ghost(total))?;
        Ok(size)
    }

    fn decode(stream: &mut Reader, limits: &DecodingLimits) -> (r: Result<Self, EncodingError>) {
        let ghost start = stream@;
        let ghost taken = 0int;
        assert(start.skip(0) =~= start);
        let ghost unread = stream@;
        let starting_node = get::<NodeId>(stream, limits, Ghost(start), Ghost(taken))?;
        proof {
            taken = taken + NodeId::parse(unread, *limits).unwrap().1;
        }
        let ghost unread = stream@;
        let relative_path = get::<RelativePath>(stream, limits, Ghost(start), Ghost(taken))?;
        proof {
            taken = taken + RelativePath::parse(unread, *limits).unwrap().1;
        }
        Ok(BrowsePath { starting_node, relative_path })
    }
}

} // verus!
