//! The address space: the nodes of the server and the references between
//! them.

use crate::basic_types::{LocalizedText, LocalizedTextView, QualifiedName, QualifiedNameView};
use crate::node_id::{NodeId, NodeIdView};
use crate::node_ids::{
    ReferenceTypeId, OBJECTS_FOLDER, REFERENCE_TYPE_COUNT, ROOT_FOLDER, SERVER, SERVER_STATUS,
    SERVER_STATUS_CURRENT_TIME, TYPES_FOLDER, VIEWS_FOLDER,
};
use crate::service_types::relative_path::{
    RelativePath, RelativePathElement, RelativePathElementView, RelativePathView,
};
use crate::service_types::view_messages::{BrowseDirection, NodeClass};
use crate::status_codes::{
    StatusCode, BAD_NODE_CLASS_INVALID, BAD_NODE_ID_EXISTS, BAD_NODE_ID_UNKNOWN,
    BAD_RESOURCE_UNAVAILABLE,
};
use crate::variant::{DataValue, DataValueView};
use vstd::prelude::*;

verus! {

/// A node of the address space, with the attributes that all classes share.
#[derive(Debug, PartialEq)]
pub struct Node {
    /// The id of the node, which no other node of the space has.
    pub node_id: NodeId,
    /// The class of the node.
    pub node_class: NodeClass,
    /// The name by which paths name the node.
    pub browse_name: QualifiedName,
    /// The name to show to people.
    pub display_name: LocalizedText,
    /// What the node is for.
    pub description: LocalizedText,
    /// Which attributes clients may write.
    pub write_mask: u32,
    /// Which attributes the current user may write.
    pub user_write_mask: u32,
    /// The value, where the node is a variable.
    pub value: Option<DataValue>,
}

/// The value that a `Node` stands for.
pub struct NodeView {
    pub node_id: NodeIdView,
    pub node_class: NodeClass,
    pub browse_name: QualifiedNameView,
    pub display_name: LocalizedTextView,
    pub description: LocalizedTextView,
    pub write_mask: u32,
    pub user_write_mask: u32,
    pub value: Option<DataValueView>,
}

impl DeepView for Node {
    type V = NodeView;

    open spec fn deep_view(&self) -> NodeView {
        NodeView {
            node_id: self.node_id.deep_view(),
            node_class: self.node_class.deep_view(),
            browse_name: self.browse_name.deep_view(),
            display_name: self.display_name.deep_view(),
            description: self.description.deep_view(),
            write_mask: self.write_mask.deep_view(),
            user_write_mask: self.user_write_mask.deep_view(),
            value: self.value.deep_view(),
        }
    }
}

impl View for Node {
    type V = NodeView;

    open spec fn view(&self) -> NodeView {
        self.deep_view()
    }
}

impl Clone for Node {
    fn clone(&self) -> (r: Node)
        ensures
            r@ == self@,
    {
        Node {
            node_id: self.node_id.clone(),
            node_class: self.node_class.clone(),
            browse_name: self.browse_name.clone(),
            display_name: self.display_name.clone(),
            description: self.description.clone(),
            write_mask: self.write_mask.clone(),
            user_write_mask: self.user_write_mask.clone(),
            value: match &self.value {
                None => None,
                Some(value) => Some(value.clone()),
            },
        }
    }
}

/// A reference of a node: its type and the node at its other end.
#[derive(Debug, PartialEq)]
pub struct Reference {
    pub reference_type_id: ReferenceTypeId,
    pub node_id: NodeId,
}

/// The value that a `Reference` stands for.
pub struct ReferenceView {
    pub reference_type_id: ReferenceTypeId,
    pub node_id: NodeIdView,
}

impl DeepView for Reference {
    type V = ReferenceView;

    open spec fn deep_view(&self) -> ReferenceView {
        ReferenceView {
            reference_type_id: self.reference_type_id.deep_view(),
            node_id: self.node_id.deep_view(),
        }
    }
}

impl View for Reference {
    type V = ReferenceView;

    open spec fn view(&self) -> ReferenceView {
        self.deep_view()
    }
}

impl Clone for Reference {
    fn clone(&self) -> (r: Reference)
        ensures
            r@ == self@,
    {
        Reference {
            reference_type_id: self.reference_type_id.clone(),
            node_id: self.node_id.clone(),
        }
    }
}

/// A reference as the space holds it: from a source to a target.
#[derive(Debug, PartialEq)]
pub struct Edge {
    pub source: NodeId,
    pub reference_type_id: ReferenceTypeId,
    pub target: NodeId,
}

/// The value that a `Edge` stands for.
pub struct EdgeView {
    pub source: NodeIdView,
    pub reference_type_id: ReferenceTypeId,
    pub target: NodeIdView,
}

impl DeepView for Edge {
    type V = EdgeView;

    open spec fn deep_view(&self) -> EdgeView {
        EdgeView {
            source: self.source.deep_view(),
            reference_type_id: self.reference_type_id.deep_view(),
            target: self.target.deep_view(),
        }
    }
}

impl View for Edge {
    type V = EdgeView;

    open spec fn view(&self) -> EdgeView {
        self.deep_view()
    }
}

impl Clone for Edge {
    fn clone(&self) -> (r: Edge)
        ensures
            r@ == self@,
    {
        Edge {
            source: self.source.clone(),
            reference_type_id: self.reference_type_id.clone(),
            target: self.target.clone(),
        }
    }
}

impl Node {
    /// A node of the class `node_class` whose display name is its browse
    /// name, without a description and with nothing writable.
    pub fn new(node_id: &NodeId, node_class: NodeClass, browse_name: &str) -> (r: Node)
        ensures
            r@ == NodeView::named(node_id@, node_class, browse_name@),
    {
        proof {
            reveal_strlit("");
        }
        let r = Node {
            node_id: node_id.clone(),
            node_class,
            browse_name: QualifiedName::new(0, browse_name),
            display_name: LocalizedText::new("", browse_name),
            description: LocalizedText::null(),
            write_mask: 0,
            user_write_mask: 0,
            value: None,
        };
        assert(""@ =~= Seq::<char>::empty());
        r
    }

    /// A variable with the value `value`, whose display name is its browse
    /// name.
    pub fn new_variable(node_id: &NodeId, browse_name: &str, value: DataValue) -> (r: Node)
        ensures
            r@ == (NodeView {
                value: Some(value@),
                ..NodeView::named(node_id@, NodeClass::Variable, browse_name@)
            }),
    {
        let mut node = Node::new(node_id, NodeClass::Variable, browse_name);
        node.value = Some(value);
        node
    }

    /// The value, where the node is a variable.
    pub fn value(&self) -> (r: &Option<DataValue>)
        ensures
            r.deep_view() == self@.value,
    {
        &self.value
    }

    /// The node id.
    pub fn node_id(&self) -> (r: &NodeId)
        ensures
            r@ == self@.node_id,
    {
        &self.node_id
    }

    /// The node class.
    pub fn node_class(&self) -> (r: NodeClass)
        ensures
            r == self@.node_class,
    {
        self.node_class
    }

    /// The browse name.
    pub fn browse_name(&self) -> (r: &QualifiedName)
        ensures
            r@ == self@.browse_name,
    {
        &self.browse_name
    }

    /// The display name.
    pub fn display_name(&self) -> (r: &LocalizedText)
        ensures
            r@ == self@.display_name,
    {
        &self.display_name
    }
}

impl NodeView {
    /// A node of the class `node_class` whose display name is its browse
    /// name, without a description and with nothing writable.
    pub open spec fn named(node_id: NodeIdView, node_class: NodeClass, name: Seq<char>) -> NodeView {
        NodeView {
            node_id,
            node_class,
            browse_name: QualifiedNameView { namespace_index: 0, name: Some(name) },
            display_name: LocalizedTextView { locale: Some(Seq::empty()), text: Some(name) },
            description: LocalizedTextView { locale: None, text: None },
            write_mask: 0,
            user_write_mask: 0,
            value: None,
        }
    }
}

/// The types of references that a search accepts: any, or a given type,
/// with its subtypes where the flag is set.
pub type ReferenceFilter = Option<(ReferenceTypeId, bool)>;

/// The nodes of the server and the references between them. A space is made
/// without nodes and gets them one by one through `insert`, which takes no
/// node whose id another node has: so no two nodes have the same id.
pub struct AddressSpace {
    nodes: Vec<Node>,
    edges: Vec<Edge>,
    last_modified: u64,
}

/// The value that an `AddressSpace` stands for.
pub struct AddressSpaceView {
    /// The nodes, in the order in which they were added.
    pub nodes: Seq<NodeView>,
    /// The references, in the order in which they were added.
    pub edges: Seq<EdgeView>,
    /// A stamp that goes up with every change.
    pub last_modified: u64,
}

impl DeepView for AddressSpace {
    type V = AddressSpaceView;

    closed spec fn deep_view(&self) -> AddressSpaceView {
        AddressSpaceView {
            nodes: self.nodes.deep_view(),
            edges: self.edges.deep_view(),
            last_modified: self.last_modified,
        }
    }
}

impl View for AddressSpace {
    type V = AddressSpaceView;

    open spec fn view(&self) -> AddressSpaceView {
        self.deep_view()
    }
}

impl AddressSpaceView {
    /// No two nodes have the same id.
    pub open spec fn ids_unique(self) -> bool {
        forall|i: int, j: int|
            0 <= i < j < self.nodes.len() ==> (#[trigger] self.nodes[i]).node_id != (
            #[trigger] self.nodes[j]).node_id
    }

    /// The first of the nodes from position `from` on that has the id `id`.
    pub open spec fn find_node_from(self, id: NodeIdView, from: int) -> Option<NodeView>
        decreases self.nodes.len() - from,
    {
        if from < 0 || from >= self.nodes.len() {
            None
        } else if self.nodes[from].node_id == id {
            Some(self.nodes[from])
        } else {
            self.find_node_from(id, from + 1)
        }
    }

    /// The node with the id `id`, where there is one.
    pub open spec fn find_node(self, id: NodeIdView) -> Option<NodeView> {
        self.find_node_from(id, 0)
    }

    /// Whether there is a node with the id `id`.
    pub open spec fn node_exists(self, id: NodeIdView) -> bool {
        self.find_node(id) is Some
    }

    /// A node is found from a position on exactly where one at or behind
    /// that position has the id.
    pub proof fn lemma_find_node_from(self, id: NodeIdView, from: int)
        requires
            0 <= from,
        ensures
            self.find_node_from(id, from) is Some <==> exists|i: int|
                from <= i < self.nodes.len() && (#[trigger] self.nodes[i]).node_id == id,
            self.find_node_from(id, from) matches Some(node) ==> node.node_id == id,
        decreases self.nodes.len() - from,
    {
        if from < self.nodes.len() {
            if self.nodes[from].node_id == id {
            } else {
                self.lemma_find_node_from(id, from + 1);
            }
        }
    }

    /// Adding a node whose id no node has keeps the ids of the nodes apart.
    pub proof fn lemma_with_node_keeps_ids_unique(self, node: NodeView)
        requires
            self.ids_unique(),
            !self.node_exists(node.node_id),
        ensures
            self.with_node(node).ids_unique(),
    {
        self.lemma_find_node_from(node.node_id, 0);
        let after = self.with_node(node);
        assert forall|i: int, j: int| 0 <= i < j < after.nodes.len() implies (
        #[trigger] after.nodes[i]).node_id != (#[trigger] after.nodes[j]).node_id by {
            if j == self.nodes.len() {
                assert(self.nodes[i].node_id != node.node_id);
            } else {
                assert(self.nodes[i].node_id != self.nodes[j].node_id);
            }
        }
    }

    /// Whether the reference at position `i` says that `sub` is a direct
    /// subtype of a standard type.
    pub open spec fn names_supertype(self, i: int, sub: ReferenceTypeId) -> bool {
        &&& 0 <= i < self.edges.len()
        &&& self.edges[i].reference_type_id == ReferenceTypeId::HasSubtype
        &&& self.edges[i].target == sub.spec_node_id()
        &&& ReferenceTypeId::of_node_id(self.edges[i].source) is Some
    }

    /// Whether `sub` is `sup` or is reached from it by at most `hops`
    /// references of the type HasSubtype.
    pub open spec fn is_subtype_within(
        self,
        sub: ReferenceTypeId,
        sup: ReferenceTypeId,
        hops: nat,
    ) -> bool
        decreases hops,
    {
        sub == sup || (hops > 0 && exists|i: int| #[trigger]
            self.names_supertype(i, sub) && self.is_subtype_within(
                ReferenceTypeId::of_node_id(self.edges[i].source).unwrap(),
                sup,
                (hops - 1) as nat,
            ))
    }

    /// Whether `sub` is `sup` or a subtype of it: with only so many standard
    /// types, a chain of subtypes has fewer than that many links.
    pub open spec fn is_subtype(self, sub: ReferenceTypeId, sup: ReferenceTypeId) -> bool {
        self.is_subtype_within(sub, sup, REFERENCE_TYPE_COUNT as nat)
    }

    /// Whether a reference of the type `actual` passes `filter`.
    pub open spec fn type_matches(self, filter: ReferenceFilter, actual: ReferenceTypeId) -> bool {
        match filter {
            None => true,
            Some((wanted, include_subtypes)) => if include_subtypes {
                self.is_subtype(actual, wanted)
            } else {
                actual == wanted
            },
        }
    }

    /// Whether the reference `edge` is one of the node `id`, from it or, for
    /// `inverse`, to it, and passes `filter`.
    pub open spec fn edge_matches(
        self,
        edge: EdgeView,
        id: NodeIdView,
        inverse: bool,
        filter: ReferenceFilter,
    ) -> bool {
        (if inverse {
            edge.target == id
        } else {
            edge.source == id
        }) && self.type_matches(filter, edge.reference_type_id)
    }

    /// The reference `edge` as seen from its source or, for `inverse`, from
    /// its target.
    pub open spec fn edge_reference(edge: EdgeView, inverse: bool) -> ReferenceView {
        ReferenceView {
            reference_type_id: edge.reference_type_id,
            node_id: if inverse {
                edge.source
            } else {
                edge.target
            },
        }
    }

    /// The references of the node `id` among the first `n` of the space that
    /// pass `filter`, in their order.
    pub open spec fn references_upto(
        self,
        id: NodeIdView,
        inverse: bool,
        filter: ReferenceFilter,
        n: int,
    ) -> Seq<ReferenceView>
        decreases n,
    {
        if n <= 0 {
            Seq::empty()
        } else {
            let before = self.references_upto(id, inverse, filter, n - 1);
            if self.edge_matches(self.edges[n - 1], id, inverse, filter) {
                before.push(Self::edge_reference(self.edges[n - 1], inverse))
            } else {
                before
            }
        }
    }

    /// The references from the node `id` or, for `inverse`, to it that pass
    /// `filter`, in the order in which they were added.
    pub open spec fn references(self, id: NodeIdView, inverse: bool, filter: ReferenceFilter) -> Seq<
        ReferenceView,
    > {
        self.references_upto(id, inverse, filter, self.edges.len() as int)
    }

    /// The references of the node `id` in the direction `direction` that
    /// pass `filter`: those from the node first, then those to it.
    pub open spec fn references_by_direction(
        self,
        id: NodeIdView,
        direction: BrowseDirection,
        filter: ReferenceFilter,
    ) -> Seq<ReferenceView> {
        match direction {
            BrowseDirection::Forward => self.references(id, false, filter),
            BrowseDirection::Inverse => self.references(id, true, filter),
            BrowseDirection::Both => self.references(id, false, filter) + self.references(
                id,
                true,
                filter,
            ),
        }
    }

    /// The position in `references_by_direction` at which the references to
    /// the node begin.
    pub open spec fn inverse_start(
        self,
        id: NodeIdView,
        direction: BrowseDirection,
        filter: ReferenceFilter,
    ) -> nat {
        match direction {
            BrowseDirection::Inverse => 0,
            _ => self.references(id, false, filter).len(),
        }
    }

    /// Of the targets of the first `n` of `references`, those that are nodes
    /// of the space with the browse name `name`, in their order.
    pub open spec fn named_targets_upto(
        self,
        references: Seq<ReferenceView>,
        name: QualifiedNameView,
        n: int,
    ) -> Seq<NodeIdView>
        decreases n,
    {
        if n <= 0 {
            Seq::empty()
        } else {
            let before = self.named_targets_upto(references, name, n - 1);
            match self.find_node(references[n - 1].node_id) {
                Some(node) if node.browse_name == name => before.push(references[n - 1].node_id),
                _ => before,
            }
        }
    }

    /// The nodes that one step of a path leads to from the node `id`: the
    /// targets of its references in the direction and of the type that the
    /// element names, as far as they have the browse name it names.
    pub open spec fn element_targets(self, id: NodeIdView, element: RelativePathElementView) -> Seq<
        NodeIdView,
    > {
        let references = self.references(
            id,
            element.is_inverse,
            reference_filter(element.reference_type_id, element.include_subtypes),
        );
        self.named_targets_upto(references, element.target_name, references.len() as int)
    }

    /// The nodes that one step of a path leads to from the first `n` of
    /// `nodes`, those of an earlier node first.
    pub open spec fn step_upto(
        self,
        nodes: Seq<NodeIdView>,
        element: RelativePathElementView,
        n: int,
    ) -> Seq<NodeIdView>
        decreases n,
    {
        if n <= 0 {
            Seq::empty()
        } else {
            self.step_upto(nodes, element, n - 1) + self.element_targets(nodes[n - 1], element)
        }
    }

    /// The nodes that the first `n` steps of a path lead to from `start`.
    pub open spec fn walk_upto(
        self,
        start: NodeIdView,
        elements: Seq<RelativePathElementView>,
        n: int,
    ) -> Seq<NodeIdView>
        decreases n,
    {
        if n <= 0 {
            seq![start]
        } else {
            let before = self.walk_upto(start, elements, n - 1);
            self.step_upto(before, elements[n - 1], before.len() as int)
        }
    }

    /// The nodes that a path leads to from `start`: all targets of its last
    /// step; `BAD_NODE_ID_UNKNOWN` where `start` is no node of the space.
    pub open spec fn relative_path_targets(self, start: NodeIdView, path: RelativePathView) -> Result<
        Seq<NodeIdView>,
        StatusCode,
    > {
        if !self.node_exists(start) {
            Err(StatusCode(BAD_NODE_ID_UNKNOWN))
        } else {
            let elements = match path.elements {
                Some(elements) => elements,
                None => Seq::empty(),
            };
            Ok(self.walk_upto(start, elements, elements.len() as int))
        }
    }

    /// The space with one more node, to which a reference of the type
    /// `reference_type_id` leads from `parent`.
    pub open spec fn with_child(
        self,
        node: NodeView,
        parent: NodeIdView,
        reference_type_id: ReferenceTypeId,
    ) -> AddressSpaceView {
        self.with_node(node).with_reference(parent, reference_type_id, node.node_id)
    }

    /// The space that holds the root folder and, organized by it, the
    /// folders of the objects, the types and the views; and, in the folder
    /// of the objects, the server with its status and, as a part of that,
    /// the time of the server.
    pub open spec fn standard() -> AddressSpaceView {
        Self::empty().with_node(
            NodeView::named(NodeIdView::numeric(0, ROOT_FOLDER), NodeClass::Object, "Root"@),
        ).with_child(
            NodeView::named(NodeIdView::numeric(0, OBJECTS_FOLDER), NodeClass::Object, "Objects"@),
            NodeIdView::numeric(0, ROOT_FOLDER),
            ReferenceTypeId::Organizes,
        ).with_child(
            NodeView::named(NodeIdView::numeric(0, TYPES_FOLDER), NodeClass::Object, "Types"@),
            NodeIdView::numeric(0, ROOT_FOLDER),
            ReferenceTypeId::Organizes,
        ).with_child(
            NodeView::named(NodeIdView::numeric(0, VIEWS_FOLDER), NodeClass::Object, "Views"@),
            NodeIdView::numeric(0, ROOT_FOLDER),
            ReferenceTypeId::Organizes,
        ).with_child(
            NodeView::named(NodeIdView::numeric(0, SERVER), NodeClass::Object, "Server"@),
            NodeIdView::numeric(0, OBJECTS_FOLDER),
            ReferenceTypeId::Organizes,
        ).with_child(
            NodeView::named(
                NodeIdView::numeric(0, SERVER_STATUS),
                NodeClass::Variable,
                "ServerStatus"@,
            ),
            NodeIdView::numeric(0, SERVER),
            ReferenceTypeId::HasComponent,
        ).with_child(
            NodeView::named(
                NodeIdView::numeric(0, SERVER_STATUS_CURRENT_TIME),
                NodeClass::Variable,
                "CurrentTime"@,
            ),
            NodeIdView::numeric(0, SERVER_STATUS),
            ReferenceTypeId::HasComponent,
        )
    }

    /// The position of the first of the nodes from position `from` on that
    /// has the id `id`.
    pub open spec fn node_position_from(self, id: NodeIdView, from: int) -> Option<int>
        decreases self.nodes.len() - from,
    {
        if from < 0 || from >= self.nodes.len() {
            None
        } else if self.nodes[from].node_id == id {
            Some(from)
        } else {
            self.node_position_from(id, from + 1)
        }
    }

    /// The position of a node is where the node is found.
    pub proof fn lemma_node_position_from(self, id: NodeIdView, from: int)
        requires
            0 <= from,
        ensures
            match self.node_position_from(id, from) {
                Some(i) => from <= i < self.nodes.len() && self.find_node_from(id, from) == Some(
                    self.nodes[i],
                ),
                None => self.find_node_from(id, from) is None,
            },
        decreases self.nodes.len() - from,
    {
        if from < self.nodes.len() && self.nodes[from].node_id != id {
            self.lemma_node_position_from(id, from + 1);
        }
    }

    /// Whether the node `id` is a variable of the space.
    pub open spec fn is_variable(self, id: NodeIdView) -> bool {
        self.find_node(id) matches Some(node) && node.node_class == NodeClass::Variable
    }

    /// The space in which the variable `id` has the value `value`. The
    /// stamp stays: a value is no part of what a browse returns.
    pub open spec fn with_value(self, id: NodeIdView, value: DataValueView) -> AddressSpaceView {
        match self.node_position_from(id, 0) {
            Some(i) if self.nodes[i].node_class == NodeClass::Variable => AddressSpaceView {
                nodes: self.nodes.update(i, NodeView { value: Some(value), ..self.nodes[i] }),
                ..self
            },
            _ => self,
        }
    }

    /// The space with one more node.
    pub open spec fn with_node(self, node: NodeView) -> AddressSpaceView {
        AddressSpaceView {
            nodes: self.nodes.push(node),
            last_modified: (self.last_modified + 1) as u64,
            ..self
        }
    }

    /// The space with one more reference.
    pub open spec fn with_reference(
        self,
        source: NodeIdView,
        reference_type_id: ReferenceTypeId,
        target: NodeIdView,
    ) -> AddressSpaceView {
        AddressSpaceView {
            edges: self.edges.push(EdgeView { source, reference_type_id, target }),
            last_modified: (self.last_modified + 1) as u64,
            ..self
        }
    }

    /// The space without nodes and references.
    pub open spec fn empty() -> AddressSpaceView {
        AddressSpaceView { nodes: Seq::empty(), edges: Seq::empty(), last_modified: 0 }
    }
}

/// The filter that a request names by the node id of a reference type: none
/// for the null id and for an id that names no standard type.
pub open spec fn reference_filter(type_id: NodeIdView, include_subtypes: bool) -> ReferenceFilter {
    if type_id.is_null() {
        None
    } else {
        match ReferenceTypeId::of_node_id(type_id) {
            Some(kind) => Some((kind, include_subtypes)),
            None => None,
        }
    }
}

/// The filter that a request names by the node id of a reference type.
pub fn make_reference_filter(type_id: &NodeId, include_subtypes: bool) -> (r: ReferenceFilter)
    ensures
        r == reference_filter(type_id@, include_subtypes),
{
    if type_id.is_null() {
        None
    } else {
        match type_id.as_reference_type_id() {
            Ok(kind) => Some((kind, include_subtypes)),
            Err(_) => None,
        }
    }
}

impl AddressSpace {
    /// The space without nodes and references.
    pub fn empty() -> (r: AddressSpace)
        ensures
            r@ == AddressSpaceView::empty(),
    {
        let r = AddressSpace { nodes: Vec::new(), edges: Vec::new(), last_modified: 0 };
        assert(r@.nodes =~= Seq::empty());
        assert(r@.edges =~= Seq::empty());
        r
    }

    /// The stamp that goes up with every change.
    pub fn last_modified(&self) -> (r: u64)
        ensures
            r == self@.last_modified,
    {
        self.last_modified
    }

    /// The position of the first node with the id `node_id`.
    fn position(&self, node_id: &NodeId) -> (r: Option<usize>)
        ensures
            match r {
                Some(i) => i < self@.nodes.len() && self@.find_node(node_id@) == Some(
                    self@.nodes[i as int],
                ) && self@.node_position_from(node_id@, 0) == Some(i as int),
                None => !self@.node_exists(node_id@) && self@.node_position_from(node_id@, 0)
                    is None,
            },
    {
        let mut i: usize = 0;
        while i < self.nodes.len()
            invariant
                i <= self.nodes.len(),
                self@.nodes.len() == self.nodes.len(),
                self@.find_node(node_id@) == self@.find_node_from(node_id@, i as int),
                self@.node_position_from(node_id@, 0) == self@.node_position_from(
                    node_id@,
                    i as int,
                ),
            decreases self.nodes.len() - i,
        {
            if self.nodes[i].node_id == *node_id {
                return Some(i);
            }
            i = i + 1;
        }
        None
    }

    /// Whether there is a node with the id `node_id`.
    pub fn node_exists(&self, node_id: &NodeId) -> (r: bool)
        ensures
            r == self@.node_exists(node_id@),
    {
        self.position(node_id).is_some()
    }

    /// The node with the id `node_id`, where there is one.
    pub fn find_node(&self, node_id: &NodeId) -> (r: Option<&Node>)
        ensures
            r.deep_view() == self@.find_node(node_id@),
    {
        match self.position(node_id) {
            Some(i) => Some(&self.nodes[i]),
            None => None,
        }
    }

    /// Whether `sub` is `sup` or is reached from it by at most `hops`
    /// references of the type HasSubtype.
    fn is_subtype_within(&self, sub: ReferenceTypeId, sup: ReferenceTypeId, hops: usize) -> (r: bool)
        ensures
            r == self@.is_subtype_within(sub, sup, hops as nat),
        decreases hops,
    {
        if sub == sup {
            return true;
        }
        if hops == 0 {
            return false;
        }
        let target = sub.as_node_id();
        let mut i: usize = 0;
        while i < self.edges.len()
            invariant
                i <= self.edges.len(),
                self@.edges.len() == self.edges.len(),
                hops > 0,
                sub != sup,
                target@ == sub.spec_node_id(),
                forall|j: int|
                    0 <= j < i ==> !(#[trigger] self@.names_supertype(j, sub)
                        && self@.is_subtype_within(
                        ReferenceTypeId::of_node_id(self@.edges[j].source).unwrap(),
                        sup,
                        (hops - 1) as nat,
                    )),
            decreases self.edges.len() - i,
        {
            let edge = &self.edges[i];
            assert(edge@ == self@.edges[i as int]);
            if edge.reference_type_id == ReferenceTypeId::HasSubtype && edge.target == target {
                match edge.source.as_reference_type_id() {
                    Ok(parent) => {
                        if self.is_subtype_within(parent, sup, hops - 1) {
                            assert(self@.names_supertype(i as int, sub));
                            return true;
                        }
                    },
                    Err(_) => {},
                }
            }
            i = i + 1;
        }
        false
    }

    /// Whether `sub` is `sup` or a subtype of it.
    pub fn is_subtype(&self, sub: ReferenceTypeId, sup: ReferenceTypeId) -> (r: bool)
        ensures
            r == self@.is_subtype(sub, sup),
    {
        self.is_subtype_within(sub, sup, REFERENCE_TYPE_COUNT)
    }

    /// Whether a reference of the type `actual` passes `filter`.
    pub fn reference_type_matches(&self, filter: ReferenceFilter, actual: ReferenceTypeId) -> (r:
        bool)
        ensures
            r == self@.type_matches(filter, actual),
    {
        match filter {
            None => true,
            Some((wanted, include_subtypes)) => {
                if include_subtypes {
                    self.is_subtype(actual, wanted)
                } else {
                    actual == wanted
                }
            },
        }
    }

    /// The references from the node `node_id` or, for `inverse`, to it that
    /// pass `filter`.
    fn collect_references(&self, node_id: &NodeId, inverse: bool, filter: ReferenceFilter) -> (r:
        Vec<Reference>)
        ensures
            r.deep_view() == self@.references(node_id@, inverse, filter),
    {
        let mut found: Vec<Reference> = Vec::new();
        let mut i: usize = 0;
        assert(found.deep_view() =~= self@.references_upto(node_id@, inverse, filter, 0));
        while i < self.edges.len()
            invariant
                i <= self.edges.len(),
                self@.edges.len() == self.edges.len(),
                found.deep_view() == self@.references_upto(node_id@, inverse, filter, i as int),
            decreases self.edges.len() - i,
        {
            let edge = &self.edges[i];
            assert(edge@ == self@.edges[i as int]);
            let ghost before = found.deep_view();
            let at_node = if inverse {
                edge.target == *node_id
            } else {
                edge.source == *node_id
            };
            if at_node && self.reference_type_matches(filter, edge.reference_type_id) {
                let reference = Reference {
                    reference_type_id: edge.reference_type_id,
                    node_id: if inverse {
                        edge.source.clone()
                    } else {
                        edge.target.clone()
                    },
                };
                found.push(reference);
                assert(found.deep_view() =~= before.push(
                    AddressSpaceView::edge_reference(edge@, inverse),
                ));
            }
            i = i + 1;
        }
        found
    }

    /// The references from the node `node_id` that pass `filter`, or nothing
    /// where there are none.
    pub fn find_references_from(&self, node_id: &NodeId, filter: ReferenceFilter) -> (r: Option<
        Vec<Reference>,
    >)
        ensures
            r.deep_view() == if self@.references(node_id@, false, filter).len() == 0 {
                None
            } else {
                Some(self@.references(node_id@, false, filter))
            },
    {
        let found = self.collect_references(node_id, false, filter);
        if found.len() == 0 {
            None
        } else {
            Some(found)
        }
    }

    /// The references to the node `node_id` that pass `filter`, or nothing
    /// where there are none.
    pub fn find_references_to(&self, node_id: &NodeId, filter: ReferenceFilter) -> (r: Option<
        Vec<Reference>,
    >)
        ensures
            r.deep_view() == if self@.references(node_id@, true, filter).len() == 0 {
                None
            } else {
                Some(self@.references(node_id@, true, filter))
            },
    {
        let found = self.collect_references(node_id, true, filter);
        if found.len() == 0 {
            None
        } else {
            Some(found)
        }
    }

    /// The references of the node `node_id` in the direction `direction`
    /// that pass `filter`, those from the node before those to it, and the
    /// position at which those to it begin.
    pub fn find_references_by_direction(
        &self,
        node_id: &NodeId,
        direction: BrowseDirection,
        filter: ReferenceFilter,
    ) -> (r: (Vec<Reference>, usize))
        ensures
            r.0.deep_view() == self@.references_by_direction(node_id@, direction, filter),
            r.1 == self@.inverse_start(node_id@, direction, filter),
    {
        match direction {
            BrowseDirection::Forward => {
                let references = self.collect_references(node_id, false, filter);
                let inverse_start = references.len();
                (references, inverse_start)
            },
            BrowseDirection::Inverse => {
                let references = self.collect_references(node_id, true, filter);
                (references, 0)
            },
            BrowseDirection::Both => {
                let mut references = self.collect_references(node_id, false, filter);
                let inverse_start = references.len();
                let ghost forward = references.deep_view();
                let mut inverse = self.collect_references(node_id, true, filter);
                let ghost backward = inverse.deep_view();
                references.append(&mut inverse);
                assert(references.deep_view() =~= forward + backward);
                (references, inverse_start)
            },
        }
    }

    /// Gives the variable `node_id` the value `value`. Returns whether
    /// there is such a variable; where there is none, nothing changes.
    pub fn set_variable_value(&mut self, node_id: &NodeId, value: DataValue) -> (r: bool)
        ensures
            r == old(self)@.is_variable(node_id@),
            final(self)@ == old(self)@.with_value(node_id@, value@),
    {
        match self.position(node_id) {
            Some(i) => {
                if self.nodes[i].node_class == NodeClass::Variable {
                    let ghost before = self@;
                    let mut node = self.nodes[i].clone();
                    node.value = Some(value);
                    self.nodes.set(i, node);
                    proof {
                        assert(self@.nodes =~= before.nodes.update(
                            i as int,
                            NodeView { value: Some(value@), ..before.nodes[i as int] },
                        ));
                        assert(self@.edges =~= before.edges);
                    }
                    true
                } else {
                    false
                }
            },
            None => false,
        }
    }

    /// Adds `node`. Fails, changing nothing, with `BAD_NODE_ID_EXISTS` where
    /// a node has its id, and with `BAD_RESOURCE_UNAVAILABLE` where the stamp
    /// cannot go up.
    pub fn insert(&mut self, node: Node) -> (r: Result<(), StatusCode>)
        ensures
            old(self)@.ids_unique() ==> final(self)@.ids_unique(),
            match r {
                Ok(_) => !old(self)@.node_exists(node@.node_id) && old(self)@.last_modified
                    < u64::MAX && final(self)@ == old(self)@.with_node(node@),
                Err(status) => final(self)@ == old(self)@ && if old(self)@.node_exists(
                    node@.node_id,
                ) {
                    status == StatusCode(BAD_NODE_ID_EXISTS)
                } else {
                    old(self)@.last_modified == u64::MAX && status == StatusCode(
                        BAD_RESOURCE_UNAVAILABLE,
                    )
                },
            },
    {
        if self.node_exists(&node.node_id) {
            return Err(StatusCode(BAD_NODE_ID_EXISTS));
        }
        if self.last_modified == u64::MAX {
            return Err(StatusCode(BAD_RESOURCE_UNAVAILABLE));
        }
        let ghost before = self@;
        self.nodes.push(node);
        self.last_modified = self.last_modified + 1;
        proof {
            assert(self@.nodes =~= before.nodes.push(node@));
            assert(self@.edges =~= before.edges);
            if before.ids_unique() {
                before.lemma_with_node_keeps_ids_unique(node@);
            }
        }
        Ok(())
    }

    /// Adds a reference of the type `reference_type_id` from `source` to
    /// `target`. Fails, changing nothing, with `BAD_RESOURCE_UNAVAILABLE`
    /// where the stamp cannot go up.
    pub fn insert_reference(
        &mut self,
        source: &NodeId,
        target: &NodeId,
        reference_type_id: ReferenceTypeId,
    ) -> (r: Result<(), StatusCode>)
        ensures
            match r {
                Ok(_) => old(self)@.last_modified < u64::MAX && final(self)@ == old(
                    self,
                )@.with_reference(source@, reference_type_id, target@),
                Err(status) => final(self)@ == old(self)@ && old(self)@.last_modified == u64::MAX
                    && status == StatusCode(BAD_RESOURCE_UNAVAILABLE),
            },
    {
        if self.last_modified == u64::MAX {
            return Err(StatusCode(BAD_RESOURCE_UNAVAILABLE));
        }
        let ghost before = self@;
        let edge = Edge { source: source.clone(), reference_type_id, target: target.clone() };
        self.edges.push(edge);
        self.last_modified = self.last_modified + 1;
        proof {
            assert(self@.edges =~= before.edges.push(
                EdgeView { source: source@, reference_type_id, target: target@ },
            ));
            assert(self@.nodes =~= before.nodes);
        }
        Ok(())
    }
}


/// The result of a search for nodes, as a value.
pub open spec fn node_ids_view(result: Result<Vec<NodeId>, StatusCode>) -> Result<
    Seq<NodeIdView>,
    StatusCode,
> {
    match result {
        Ok(ids) => Ok(ids.deep_view()),
        Err(status) => Err(status),
    }
}

impl AddressSpace {
    /// Adds `node` and a reference of the type `reference_type_id` from
    /// `parent` to it. Fails, changing nothing, with `BAD_NODE_ID_EXISTS`
    /// where a node has its id, and with `BAD_RESOURCE_UNAVAILABLE` where
    /// the stamp cannot go up twice.
    pub fn add_node(&mut self, node: Node, parent: &NodeId, reference_type_id: ReferenceTypeId) -> (r:
        Result<(), StatusCode>)
        ensures
            old(self)@.ids_unique() ==> final(self)@.ids_unique(),
            match r {
                Ok(_) => !old(self)@.node_exists(node@.node_id) && old(self)@.last_modified
                    < u64::MAX - 1 && final(self)@ == old(self)@.with_child(
                    node@,
                    parent@,
                    reference_type_id,
                ),
                Err(status) => final(self)@ == old(self)@ && if old(self)@.node_exists(
                    node@.node_id,
                ) {
                    status == StatusCode(BAD_NODE_ID_EXISTS)
                } else {
                    old(self)@.last_modified >= u64::MAX - 1 && status == StatusCode(
                        BAD_RESOURCE_UNAVAILABLE,
                    )
                },
            },
    {
        if self.node_exists(&node.node_id) {
            return Err(StatusCode(BAD_NODE_ID_EXISTS));
        }
        if self.last_modified >= u64::MAX - 1 {
            return Err(StatusCode(BAD_RESOURCE_UNAVAILABLE));
        }
        let node_id = node.node_id.clone();
        let inserted = self.insert(node);
        assert(inserted is Ok);
        let referred = self.insert_reference(parent, &node_id, reference_type_id);
        assert(referred is Ok);
        Ok(())
    }

    /// Adds the variable `node` below `parent`. Fails with
    /// `BAD_NODE_CLASS_INVALID` where `node` is no variable, else as
    /// `add_node` does.
    pub fn add_variable(&mut self, node: Node, parent: &NodeId, reference_type_id: ReferenceTypeId) -> (r:
        Result<(), StatusCode>)
        ensures
            old(self)@.ids_unique() ==> final(self)@.ids_unique(),
            node@.node_class != NodeClass::Variable ==> r == Err::<(), StatusCode>(
                StatusCode(BAD_NODE_CLASS_INVALID),
            ) && final(self)@ == old(self)@,
            node@.node_class == NodeClass::Variable ==> match r {
                Ok(_) => !old(self)@.node_exists(node@.node_id) && old(self)@.last_modified
                    < u64::MAX - 1 && final(self)@ == old(self)@.with_child(
                    node@,
                    parent@,
                    reference_type_id,
                ),
                Err(status) => final(self)@ == old(self)@ && if old(self)@.node_exists(
                    node@.node_id,
                ) {
                    status == StatusCode(BAD_NODE_ID_EXISTS)
                } else {
                    old(self)@.last_modified >= u64::MAX - 1 && status == StatusCode(
                        BAD_RESOURCE_UNAVAILABLE,
                    )
                },
            },
    {
        if node.node_class != NodeClass::Variable {
            return Err(StatusCode(BAD_NODE_CLASS_INVALID));
        }
        self.add_node(node, parent, reference_type_id)
    }

    /// Adds the object `node` below `parent`. Fails with
    /// `BAD_NODE_CLASS_INVALID` where `node` is no object, else as
    /// `add_node` does.
    pub fn add_object(&mut self, node: Node, parent: &NodeId, reference_type_id: ReferenceTypeId) -> (r:
        Result<(), StatusCode>)
        ensures
            old(self)@.ids_unique() ==> final(self)@.ids_unique(),
            node@.node_class != NodeClass::Object ==> r == Err::<(), StatusCode>(
                StatusCode(BAD_NODE_CLASS_INVALID),
            ) && final(self)@ == old(self)@,
            node@.node_class == NodeClass::Object ==> match r {
                Ok(_) => !old(self)@.node_exists(node@.node_id) && old(self)@.last_modified
                    < u64::MAX - 1 && final(self)@ == old(self)@.with_child(
                    node@,
                    parent@,
                    reference_type_id,
                ),
                Err(status) => final(self)@ == old(self)@ && if old(self)@.node_exists(
                    node@.node_id,
                ) {
                    status == StatusCode(BAD_NODE_ID_EXISTS)
                } else {
                    old(self)@.last_modified >= u64::MAX - 1 && status == StatusCode(
                        BAD_RESOURCE_UNAVAILABLE,
                    )
                },
            },
    {
        if node.node_class != NodeClass::Object {
            return Err(StatusCode(BAD_NODE_CLASS_INVALID));
        }
        self.add_node(node, parent, reference_type_id)
    }

    /// Adds the method `node` below `parent`. Fails with
    /// `BAD_NODE_CLASS_INVALID` where `node` is no method, else as
    /// `add_node` does.
    pub fn add_method(&mut self, node: Node, parent: &NodeId, reference_type_id: ReferenceTypeId) -> (r:
        Result<(), StatusCode>)
        ensures
            old(self)@.ids_unique() ==> final(self)@.ids_unique(),
            node@.node_class != NodeClass::Method ==> r == Err::<(), StatusCode>(
                StatusCode(BAD_NODE_CLASS_INVALID),
            ) && final(self)@ == old(self)@,
            node@.node_class == NodeClass::Method ==> match r {
                Ok(_) => !old(self)@.node_exists(node@.node_id) && old(self)@.last_modified
                    < u64::MAX - 1 && final(self)@ == old(self)@.with_child(
                    node@,
                    parent@,
                    reference_type_id,
                ),
                Err(status) => final(self)@ == old(self)@ && if old(self)@.node_exists(
                    node@.node_id,
                ) {
                    status == StatusCode(BAD_NODE_ID_EXISTS)
                } else {
                    old(self)@.last_modified >= u64::MAX - 1 && status == StatusCode(
                        BAD_RESOURCE_UNAVAILABLE,
                    )
                },
            },
    {
        if node.node_class != NodeClass::Method {
            return Err(StatusCode(BAD_NODE_CLASS_INVALID));
        }
        self.add_node(node, parent, reference_type_id)
    }

    /// The space that holds the root folder and, organized by it, the
    /// folders of the objects, the types and the views; and, in the folder
    /// of the objects, the server with its status and, as a part of that,
    /// the time of the server.
    pub fn new() -> (r: AddressSpace)
        ensures
            r@ == AddressSpaceView::standard(),
    {
        let mut space = AddressSpace::empty();
        let root = NodeId::new_numeric(0, ROOT_FOLDER);
        let inserted = space.insert(Node::new(&root, NodeClass::Object, "Root"));
        assert(inserted is Ok) by {
            assert(AddressSpaceView::empty().find_node_from(root@, 0) is None);
        }
        let added = space.add_node(
            Node::new(&NodeId::new_numeric(0, OBJECTS_FOLDER), NodeClass::Object, "Objects"),
            &root,
            ReferenceTypeId::Organizes,
        );
        assert(added is Ok) by {
            reveal_with_fuel(AddressSpaceView::find_node_from, 3);
        }
        let added = space.add_node(
            Node::new(&NodeId::new_numeric(0, TYPES_FOLDER), NodeClass::Object, "Types"),
            &root,
            ReferenceTypeId::Organizes,
        );
        assert(added is Ok) by {
            reveal_with_fuel(AddressSpaceView::find_node_from, 4);
        }
        let added = space.add_node(
            Node::new(&NodeId::new_numeric(0, VIEWS_FOLDER), NodeClass::Object, "Views"),
            &root,
            ReferenceTypeId::Organizes,
        );
        assert(added is Ok) by {
            reveal_with_fuel(AddressSpaceView::find_node_from, 5);
        }
        let server = NodeId::new_numeric(0, SERVER);
        let added = space.add_node(
            Node::new(&server, NodeClass::Object, "Server"),
            &NodeId::new_numeric(0, OBJECTS_FOLDER),
            ReferenceTypeId::Organizes,
        );
        assert(added is Ok) by {
            reveal_with_fuel(AddressSpaceView::find_node_from, 6);
        }
        let status = NodeId::new_numeric(0, SERVER_STATUS);
        let added = space.add_node(
            Node::new(&status, NodeClass::Variable, "ServerStatus"),
            &server,
            ReferenceTypeId::HasComponent,
        );
        assert(added is Ok) by {
            reveal_with_fuel(AddressSpaceView::find_node_from, 7);
        }
        let added = space.add_node(
            Node::new(
                &NodeId::new_numeric(0, SERVER_STATUS_CURRENT_TIME),
                NodeClass::Variable,
                "CurrentTime",
            ),
            &status,
            ReferenceTypeId::HasComponent,
        );
        assert(added is Ok) by {
            reveal_with_fuel(AddressSpaceView::find_node_from, 8);
        }
        space
    }

    /// The nodes that one step of a path leads to from the node `node_id`.
    fn element_targets(&self, node_id: &NodeId, element: &RelativePathElement) -> (r: Vec<NodeId>)
        ensures
            r.deep_view() == self@.element_targets(node_id@, element@),
    {
        let filter = make_reference_filter(&element.reference_type_id, element.include_subtypes);
        let references = self.collect_references(node_id, element.is_inverse, filter);
        let mut targets: Vec<NodeId> = Vec::new();
        let mut i: usize = 0;
        assert(targets.deep_view() =~= self@.named_targets_upto(
            references.deep_view(),
            element@.target_name,
            0,
        ));
        while i < references.len()
            invariant
                i <= references.len(),
                references.deep_view().len() == references.len(),
                targets.deep_view() == self@.named_targets_upto(
                    references.deep_view(),
                    element@.target_name,
                    i as int,
                ),
            decreases references.len() - i,
        {
            let ghost before = targets.deep_view();
            let target = &references[i].node_id;
            assert(target@ == references.deep_view()[i as int].node_id);
            match self.find_node(target) {
                Some(node) => {
                    if node.browse_name == element.target_name {
                        targets.push(target.clone());
                        assert(targets.deep_view() =~= before.push(target@));
                    }
                },
                None => {},
            }
            i = i + 1;
        }
        targets
    }

    /// The nodes that one step of a path leads to from `nodes`.
    fn step(&self, nodes: &Vec<NodeId>, element: &RelativePathElement) -> (r: Vec<NodeId>)
        ensures
            r.deep_view() == self@.step_upto(nodes.deep_view(), element@, nodes.len() as int),
    {
        let mut targets: Vec<NodeId> = Vec::new();
        let mut i: usize = 0;
        assert(targets.deep_view() =~= self@.step_upto(nodes.deep_view(), element@, 0));
        while i < nodes.len()
            invariant
                i <= nodes.len(),
                nodes.deep_view().len() == nodes.len(),
                targets.deep_view() == self@.step_upto(nodes.deep_view(), element@, i as int),
            decreases nodes.len() - i,
        {
            let ghost before = targets.deep_view();
            assert(nodes[i as int]@ == nodes.deep_view()[i as int]);
            let mut found = self.element_targets(&nodes[i], element);
            let ghost added = found.deep_view();
            targets.append(&mut found);
            assert(targets.deep_view() =~= before + added);
            i = i + 1;
        }
        targets
    }

    /// The nodes that `relative_path` leads to from `node_id`: all targets
    /// of its last step; `BAD_NODE_ID_UNKNOWN` where `node_id` is no node of
    /// the space.
    pub fn find_nodes_relative_path(&self, node_id: &NodeId, relative_path: &RelativePath) -> (r:
        Result<Vec<NodeId>, StatusCode>)
        ensures
            node_ids_view(r) == self@.relative_path_targets(node_id@, relative_path@),
    {
        if !self.node_exists(node_id) {
            return Err(StatusCode(BAD_NODE_ID_UNKNOWN));
        }
        let mut nodes: Vec<NodeId> = Vec::new();
        nodes.push(node_id.clone());
        match &relative_path.elements {
            None => {
                assert(nodes.deep_view() =~= seq![node_id@]);
                Ok(nodes)
            },
            Some(elements) => {
                let mut i: usize = 0;
                assert(nodes.deep_view() =~= self@.walk_upto(node_id@, elements.deep_view(), 0));
                while i < elements.len()
                    invariant
                        i <= elements.len(),
                        elements.deep_view().len() == elements.len(),
                        nodes.deep_view() == self@.walk_upto(
                            node_id@,
                            elements.deep_view(),
                            i as int,
                        ),
                    decreases elements.len() - i,
                {
                    assert(elements[i as int]@ == elements.deep_view()[i as int]);
                    nodes = self.step(&nodes, &elements[i]);
                    i = i + 1;
                }
                Ok(nodes)
            },
        }
    }
}

} // verus!
