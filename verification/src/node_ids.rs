//! The well-known nodes of the standard namespace.

use crate::node_id::{Identifier, IdentifierView, NodeId, NodeIdView};
use vstd::prelude::*;

verus! {

/// The number of the root folder in the standard namespace.
pub const ROOT_FOLDER: u32 = 84;

/// The number of the objects folder in the standard namespace.
pub const OBJECTS_FOLDER: u32 = 85;

/// The number of the types folder in the standard namespace.
pub const TYPES_FOLDER: u32 = 86;

/// The number of the views folder in the standard namespace.
pub const VIEWS_FOLDER: u32 = 87;

/// The number of the object that stands for the server in the standard
/// namespace.
pub const SERVER: u32 = 2253;

/// The number of the variable that holds the status of the server.
pub const SERVER_STATUS: u32 = 2256;

/// The number of the variable that holds the time of the server.
pub const SERVER_STATUS_CURRENT_TIME: u32 = 2258;

/// The standard types of references.
#[derive(Clone, Copy, Debug, PartialEq, Eq, Hash, Structural)]
pub enum ReferenceTypeId {
    References,
    NonHierarchicalReferences,
    HierarchicalReferences,
    HasChild,
    Organizes,
    HasEventSource,
    HasModellingRule,
    HasEncoding,
    HasDescription,
    HasTypeDefinition,
    GeneratesEvent,
    Aggregates,
    HasSubtype,
    HasProperty,
    HasComponent,
    HasNotifier,
    HasOrderedComponent,
}

/// How many standard types of references there are.
pub const REFERENCE_TYPE_COUNT: usize = 17;

impl DeepView for ReferenceTypeId {
    type V = ReferenceTypeId;

    open spec fn deep_view(&self) -> ReferenceTypeId {
        *self
    }
}

impl ReferenceTypeId {
    /// The number of the type in the standard namespace.
    pub open spec fn spec_number(self) -> u32 {
        match self {
            ReferenceTypeId::References => 31,
            ReferenceTypeId::NonHierarchicalReferences => 32,
            ReferenceTypeId::HierarchicalReferences => 33,
            ReferenceTypeId::HasChild => 34,
            ReferenceTypeId::Organizes => 35,
            ReferenceTypeId::HasEventSource => 36,
            ReferenceTypeId::HasModellingRule => 37,
            ReferenceTypeId::HasEncoding => 38,
            ReferenceTypeId::HasDescription => 39,
            ReferenceTypeId::HasTypeDefinition => 40,
            ReferenceTypeId::GeneratesEvent => 41,
            ReferenceTypeId::Aggregates => 44,
            ReferenceTypeId::HasSubtype => 45,
            ReferenceTypeId::HasProperty => 46,
            ReferenceTypeId::HasComponent => 47,
            ReferenceTypeId::HasNotifier => 48,
            ReferenceTypeId::HasOrderedComponent => 49,
        }
    }

    /// The number of the type in the standard namespace.
    #[verifier::when_used_as_spec(spec_number)]
    pub fn number(self) -> (r: u32)
        ensures
            r == self.spec_number(),
    {
        match self {
            ReferenceTypeId::References => 31,
            ReferenceTypeId::NonHierarchicalReferences => 32,
            ReferenceTypeId::HierarchicalReferences => 33,
            ReferenceTypeId::HasChild => 34,
            ReferenceTypeId::Organizes => 35,
            ReferenceTypeId::HasEventSource => 36,
            ReferenceTypeId::HasModellingRule => 37,
            ReferenceTypeId::HasEncoding => 38,
            ReferenceTypeId::HasDescription => 39,
            ReferenceTypeId::HasTypeDefinition => 40,
            ReferenceTypeId::GeneratesEvent => 41,
            ReferenceTypeId::Aggregates => 44,
            ReferenceTypeId::HasSubtype => 45,
            ReferenceTypeId::HasProperty => 46,
            ReferenceTypeId::HasComponent => 47,
            ReferenceTypeId::HasNotifier => 48,
            ReferenceTypeId::HasOrderedComponent => 49,
        }
    }

    /// The standard type with the number `number`, where there is one.
    pub open spec fn spec_from_number(number: u32) -> Option<ReferenceTypeId> {
        if number == 31 {
            Some(ReferenceTypeId::References)
        } else if number == 32 {
            Some(ReferenceTypeId::NonHierarchicalReferences)
        } else if number == 33 {
            Some(ReferenceTypeId::HierarchicalReferences)
        } else if number == 34 {
            Some(ReferenceTypeId::HasChild)
        } else if number == 35 {
            Some(ReferenceTypeId::Organizes)
        } else if number == 36 {
            Some(ReferenceTypeId::HasEventSource)
        } else if number == 37 {
            Some(ReferenceTypeId::HasModellingRule)
        } else if number == 38 {
            Some(ReferenceTypeId::HasEncoding)
        } else if number == 39 {
            Some(ReferenceTypeId::HasDescription)
        } else if number == 40 {
            Some(ReferenceTypeId::HasTypeDefinition)
        } else if number == 41 {
            Some(ReferenceTypeId::GeneratesEvent)
        } else if number == 44 {
            Some(ReferenceTypeId::Aggregates)
        } else if number == 45 {
            Some(ReferenceTypeId::HasSubtype)
        } else if number == 46 {
            Some(ReferenceTypeId::HasProperty)
        } else if number == 47 {
            Some(ReferenceTypeId::HasComponent)
        } else if number == 48 {
            Some(ReferenceTypeId::HasNotifier)
        } else if number == 49 {
            Some(ReferenceTypeId::HasOrderedComponent)
        } else {
            None
        }
    }

    /// The standard type with the number `number`, where there is one.
    #[verifier::when_used_as_spec(spec_from_number)]
    pub fn from_number(number: u32) -> (r: Option<ReferenceTypeId>)
        ensures
            r == Self::spec_from_number(number),
    {
        if number == 31 {
            Some(ReferenceTypeId::References)
        } else if number == 32 {
            Some(ReferenceTypeId::NonHierarchicalReferences)
        } else if number == 33 {
            Some(ReferenceTypeId::HierarchicalReferences)
        } else if number == 34 {
            Some(ReferenceTypeId::HasChild)
        } else if number == 35 {
            Some(ReferenceTypeId::Organizes)
        } else if number == 36 {
            Some(ReferenceTypeId::HasEventSource)
        } else if number == 37 {
            Some(ReferenceTypeId::HasModellingRule)
        } else if number == 38 {
            Some(ReferenceTypeId::HasEncoding)
        } else if number == 39 {
            Some(ReferenceTypeId::HasDescription)
        } else if number == 40 {
            Some(ReferenceTypeId::HasTypeDefinition)
        } else if number == 41 {
            Some(ReferenceTypeId::GeneratesEvent)
        } else if number == 44 {
            Some(ReferenceTypeId::Aggregates)
        } else if number == 45 {
            Some(ReferenceTypeId::HasSubtype)
        } else if number == 46 {
            Some(ReferenceTypeId::HasProperty)
        } else if number == 47 {
            Some(ReferenceTypeId::HasComponent)
        } else if number == 48 {
            Some(ReferenceTypeId::HasNotifier)
        } else if number == 49 {
            Some(ReferenceTypeId::HasOrderedComponent)
        } else {
            None
        }
    }

    /// The node id of the type.
    pub open spec fn spec_node_id(self) -> NodeIdView {
        NodeIdView::numeric(0, self.spec_number())
    }

    /// The node id of the type.
    pub fn as_node_id(self) -> (r: NodeId)
        ensures
            r@ == self.spec_node_id(),
    {
        NodeId::new_numeric(0, self.number())
    }

    /// The standard type that `id` names, where it names one.
    pub open spec fn of_node_id(id: NodeIdView) -> Option<ReferenceTypeId> {
        match id.identifier {
            IdentifierView::Numeric(number) if id.namespace == 0 => Self::spec_from_number(number),
            _ => None,
        }
    }

    /// A standard type is the one that its node id names, and no other node
    /// id names it.
    pub proof fn lemma_node_id_names(self, id: NodeIdView)
        ensures
            Self::of_node_id(self.spec_node_id()) == Some(self),
            Self::of_node_id(id) == Some(self) ==> id == self.spec_node_id(),
    {
    }
}

impl NodeId {
    /// The standard type of references that the node id names, or an error
    /// where it names none.
    pub fn as_reference_type_id(&self) -> (r: Result<ReferenceTypeId, ()>)
        ensures
            match ReferenceTypeId::of_node_id(self@) {
                Some(kind) => r == Ok::<ReferenceTypeId, ()>(kind),
                None => r is Err,
            },
    {
        if self.namespace != 0 {
            return Err(());
        }
        match &self.identifier {
            Identifier::Numeric(number) => match ReferenceTypeId::from_number(*number) {
                Some(kind) => Ok(kind),
                None => Err(()),
            },
            _ => Err(()),
        }
    }
}

} // verus!
