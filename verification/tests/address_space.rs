use opcua_server::address_space::{make_reference_filter, AddressSpace, Node, Reference};
use opcua_server::basic_types::{LocalizedText, QualifiedName};
use opcua_server::node_id::NodeId;
use opcua_server::node_ids::ReferenceTypeId;
use opcua_server::service_types::relative_path::{RelativePath, RelativePathElement};
use opcua_server::service_types::view_messages::{BrowseDirection, NodeClass};
use opcua_server::status_codes::{
    StatusCode, BAD_NODE_CLASS_INVALID, BAD_NODE_ID_EXISTS, BAD_NODE_ID_UNKNOWN,
};

fn id(number: u32) -> NodeId {
    NodeId::new_numeric(0, number)
}

fn user(number: u32) -> NodeId {
    NodeId::new_numeric(1, number)
}

fn reference(kind: ReferenceTypeId, node_id: NodeId) -> Reference {
    Reference { reference_type_id: kind, node_id }
}

/// The standard folders, a folder of the user below the objects with two
/// variables, and a small hierarchy of reference types.
fn sample() -> AddressSpace {
    let mut space = AddressSpace::new();
    let folder = Node::new(&user(1), NodeClass::Object, "Folder");
    space.add_object(folder, &id(85), ReferenceTypeId::Organizes).unwrap();
    let a = Node::new(&user(2), NodeClass::Variable, "A");
    space.add_variable(a, &user(1), ReferenceTypeId::HasComponent).unwrap();
    let b = Node::new(&user(3), NodeClass::Variable, "B");
    space.add_variable(b, &user(1), ReferenceTypeId::HasProperty).unwrap();
    space.insert_reference(&user(2), &id(63), ReferenceTypeId::HasTypeDefinition).unwrap();
    for (parent, child) in [
        (ReferenceTypeId::References, ReferenceTypeId::HierarchicalReferences),
        (ReferenceTypeId::References, ReferenceTypeId::NonHierarchicalReferences),
        (ReferenceTypeId::HierarchicalReferences, ReferenceTypeId::HasChild),
        (ReferenceTypeId::HierarchicalReferences, ReferenceTypeId::Organizes),
        (ReferenceTypeId::HasChild, ReferenceTypeId::Aggregates),
        (ReferenceTypeId::Aggregates, ReferenceTypeId::HasComponent),
        (ReferenceTypeId::Aggregates, ReferenceTypeId::HasProperty),
    ] {
        space
            .insert_reference(&parent.as_node_id(), &child.as_node_id(), ReferenceTypeId::HasSubtype)
            .unwrap();
    }
    space
}

#[test]
fn new_space_has_the_standard_folders() {
    let space = AddressSpace::new();
    for (number, name) in [(84, "Root"), (85, "Objects"), (86, "Types"), (87, "Views")] {
        let node = space.find_node(&id(number)).unwrap();
        assert_eq!(node.node_id(), &id(number));
        assert_eq!(node.node_class(), NodeClass::Object);
        assert_eq!(node.browse_name(), &QualifiedName::new(0, name));
        assert_eq!(node.display_name(), &LocalizedText::new("", name));
    }
    assert_eq!(
        space.find_references_from(&id(84), None),
        Some(vec![
            reference(ReferenceTypeId::Organizes, id(85)),
            reference(ReferenceTypeId::Organizes, id(86)),
            reference(ReferenceTypeId::Organizes, id(87)),
        ])
    );
    assert_eq!(
        space.find_references_from(&id(85), None),
        Some(vec![reference(ReferenceTypeId::Organizes, id(2253))])
    );
    assert_eq!(
        space.find_references_from(&id(2253), None),
        Some(vec![reference(ReferenceTypeId::HasComponent, id(2256))])
    );
    assert_eq!(
        space.find_references_from(&id(2256), None),
        Some(vec![reference(ReferenceTypeId::HasComponent, id(2258))])
    );
    assert_eq!(space.find_node(&id(2253)).unwrap().node_class(), NodeClass::Object);
    assert_eq!(space.find_node(&id(2256)).unwrap().node_class(), NodeClass::Variable);
    let time = space.find_node(&id(2258)).unwrap();
    assert_eq!(time.node_class(), NodeClass::Variable);
    assert_eq!(time.browse_name(), &QualifiedName::new(0, "CurrentTime"));
    assert_eq!(space.last_modified(), 13);
    assert_eq!(AddressSpace::empty().last_modified(), 0);
    assert!(!AddressSpace::empty().node_exists(&id(84)));
}

#[test]
fn node_ids_are_unique() {
    let mut space = sample();
    let stamp = space.last_modified();
    let again = Node::new(&user(1), NodeClass::Variable, "Other");
    assert_eq!(space.insert(again), Err(StatusCode(BAD_NODE_ID_EXISTS)));
    let again = Node::new(&user(2), NodeClass::Object, "Other");
    assert_eq!(
        space.add_node(again, &id(85), ReferenceTypeId::Organizes),
        Err(StatusCode(BAD_NODE_ID_EXISTS))
    );
    assert_eq!(space.last_modified(), stamp);
    assert_eq!(space.find_node(&user(1)).unwrap().browse_name(), &QualifiedName::new(0, "Folder"));
}

#[test]
fn nodes_are_added_by_class() {
    let mut space = AddressSpace::new();
    let variable = Node::new(&user(1), NodeClass::Variable, "V");
    assert_eq!(
        space.add_object(variable.clone(), &id(85), ReferenceTypeId::Organizes),
        Err(StatusCode(BAD_NODE_CLASS_INVALID))
    );
    assert_eq!(
        space.add_method(variable.clone(), &id(85), ReferenceTypeId::HasComponent),
        Err(StatusCode(BAD_NODE_CLASS_INVALID))
    );
    assert!(!space.node_exists(&user(1)));
    assert_eq!(space.add_variable(variable, &id(85), ReferenceTypeId::HasComponent), Ok(()));
    assert!(space.node_exists(&user(1)));
    let method = Node::new(&user(2), NodeClass::Method, "M");
    assert_eq!(space.add_method(method, &user(1), ReferenceTypeId::HasComponent), Ok(()));
    assert_eq!(
        space.find_references_to(&user(2), None),
        Some(vec![reference(ReferenceTypeId::HasComponent, user(1))])
    );
}

#[test]
fn every_change_bumps_the_stamp() {
    let mut space = AddressSpace::empty();
    assert_eq!(space.last_modified(), 0);
    space.insert(Node::new(&user(1), NodeClass::Object, "A")).unwrap();
    assert_eq!(space.last_modified(), 1);
    space.insert_reference(&user(1), &user(2), ReferenceTypeId::Organizes).unwrap();
    assert_eq!(space.last_modified(), 2);
    space.add_node(Node::new(&user(2), NodeClass::Object, "B"), &user(1), ReferenceTypeId::HasChild).unwrap();
    assert_eq!(space.last_modified(), 4);
}

#[test]
fn unknown_nodes_are_not_found() {
    let space = sample();
    assert!(space.find_node(&user(9)).is_none());
    assert!(!space.node_exists(&user(9)));
    assert!(space.node_exists(&user(2)));
    assert_eq!(space.find_references_from(&user(9), None), None);
    assert_eq!(space.find_references_to(&id(84), None), None);
}

#[test]
fn references_are_filtered_by_type() {
    let space = sample();
    let all = vec![
        reference(ReferenceTypeId::HasComponent, user(2)),
        reference(ReferenceTypeId::HasProperty, user(3)),
    ];
    assert_eq!(space.find_references_from(&user(1), None), Some(all.clone()));
    assert_eq!(
        space.find_references_from(&user(1), Some((ReferenceTypeId::HasProperty, false))),
        Some(vec![reference(ReferenceTypeId::HasProperty, user(3))])
    );
    assert_eq!(space.find_references_from(&user(1), Some((ReferenceTypeId::Aggregates, false))), None);
    assert_eq!(
        space.find_references_from(&user(1), Some((ReferenceTypeId::Aggregates, true))),
        Some(all.clone())
    );
    assert_eq!(
        space.find_references_from(&user(1), Some((ReferenceTypeId::References, true))),
        Some(all)
    );
    assert_eq!(
        space.find_references_from(&user(1), Some((ReferenceTypeId::NonHierarchicalReferences, true))),
        None
    );
}

#[test]
fn subtypes_follow_the_references() {
    let space = sample();
    assert!(space.is_subtype(ReferenceTypeId::HasComponent, ReferenceTypeId::HasComponent));
    assert!(space.is_subtype(ReferenceTypeId::HasComponent, ReferenceTypeId::Aggregates));
    assert!(space.is_subtype(ReferenceTypeId::HasComponent, ReferenceTypeId::References));
    assert!(space.is_subtype(ReferenceTypeId::Organizes, ReferenceTypeId::HierarchicalReferences));
    assert!(!space.is_subtype(ReferenceTypeId::Organizes, ReferenceTypeId::HasChild));
    assert!(!space.is_subtype(ReferenceTypeId::References, ReferenceTypeId::HasComponent));
    assert!(!space.is_subtype(ReferenceTypeId::HasNotifier, ReferenceTypeId::References));
    assert!(space.reference_type_matches(None, ReferenceTypeId::HasNotifier));
    assert!(!AddressSpace::new().is_subtype(ReferenceTypeId::HasComponent, ReferenceTypeId::Aggregates));
}

#[test]
fn subtypes_in_a_circle_end() {
    let mut space = AddressSpace::empty();
    let a = ReferenceTypeId::HasChild;
    let b = ReferenceTypeId::Aggregates;
    space.insert_reference(&a.as_node_id(), &b.as_node_id(), ReferenceTypeId::HasSubtype).unwrap();
    space.insert_reference(&b.as_node_id(), &a.as_node_id(), ReferenceTypeId::HasSubtype).unwrap();
    assert!(space.is_subtype(a, b));
    assert!(space.is_subtype(b, a));
    assert!(!space.is_subtype(a, ReferenceTypeId::Organizes));
}

#[test]
fn references_by_direction() {
    let space = sample();
    let forward = vec![
        reference(ReferenceTypeId::HasComponent, user(2)),
        reference(ReferenceTypeId::HasProperty, user(3)),
    ];
    let inverse = vec![reference(ReferenceTypeId::Organizes, id(85))];
    assert_eq!(
        space.find_references_by_direction(&user(1), BrowseDirection::Forward, None),
        (forward.clone(), 2)
    );
    assert_eq!(
        space.find_references_by_direction(&user(1), BrowseDirection::Inverse, None),
        (inverse.clone(), 0)
    );
    let mut both = forward;
    both.extend(inverse);
    assert_eq!(
        space.find_references_by_direction(&user(1), BrowseDirection::Both, None),
        (both, 2)
    );
    assert_eq!(
        space.find_references_by_direction(
            &user(1),
            BrowseDirection::Both,
            Some((ReferenceTypeId::Organizes, false))
        ),
        (vec![reference(ReferenceTypeId::Organizes, id(85))], 0)
    );
}

#[test]
fn filters_come_from_node_ids() {
    assert_eq!(make_reference_filter(&NodeId::null(), true), None);
    assert_eq!(
        make_reference_filter(&id(35), true),
        Some((ReferenceTypeId::Organizes, true))
    );
    assert_eq!(make_reference_filter(&id(35), false), Some((ReferenceTypeId::Organizes, false)));
    assert_eq!(make_reference_filter(&id(9999), true), None);
    assert_eq!(make_reference_filter(&NodeId::new_string(0, "x"), false), None);
}

fn element(kind: u32, inverse: bool, subtypes: bool, name: &str) -> RelativePathElement {
    RelativePathElement {
        reference_type_id: if kind == 0 { NodeId::null() } else { id(kind) },
        is_inverse: inverse,
        include_subtypes: subtypes,
        target_name: QualifiedName::new(0, name),
    }
}

fn path(elements: Vec<RelativePathElement>) -> RelativePath {
    RelativePath { elements: Some(elements) }
}

#[test]
fn relative_paths_are_walked() {
    let space = sample();
    let to_a = path(vec![
        element(35, false, false, "Objects"),
        element(35, false, false, "Folder"),
        element(47, false, false, "A"),
    ]);
    assert_eq!(space.find_nodes_relative_path(&id(84), &to_a), Ok(vec![user(2)]));
    let by_supertype = path(vec![
        element(33, false, true, "Objects"),
        element(0, false, false, "Folder"),
        element(44, false, true, "B"),
    ]);
    assert_eq!(space.find_nodes_relative_path(&id(84), &by_supertype), Ok(vec![user(3)]));
    let without_subtypes = path(vec![element(33, false, false, "Objects")]);
    assert_eq!(space.find_nodes_relative_path(&id(84), &without_subtypes), Ok(vec![]));
    let wrong_name = path(vec![element(35, false, false, "Nothing")]);
    assert_eq!(space.find_nodes_relative_path(&id(84), &wrong_name), Ok(vec![]));
    let back = path(vec![element(47, true, false, "Folder"), element(35, true, false, "Objects")]);
    assert_eq!(space.find_nodes_relative_path(&user(2), &back), Ok(vec![id(85)]));
    assert_eq!(space.find_nodes_relative_path(&id(84), &path(vec![])), Ok(vec![id(84)]));
    assert_eq!(
        space.find_nodes_relative_path(&id(84), &RelativePath { elements: None }),
        Ok(vec![id(84)])
    );
    assert_eq!(
        space.find_nodes_relative_path(&user(9), &to_a),
        Err(StatusCode(BAD_NODE_ID_UNKNOWN))
    );
}

#[test]
fn relative_paths_give_all_targets() {
    let mut space = sample();
    // a second node with the name A below the folder
    let other = Node::new(&user(4), NodeClass::Variable, "A");
    space.add_variable(other, &user(1), ReferenceTypeId::HasComponent).unwrap();
    let to_a = path(vec![element(47, false, false, "A")]);
    assert_eq!(space.find_nodes_relative_path(&user(1), &to_a), Ok(vec![user(2), user(4)]));
    // names are told apart by their namespace
    let mut in_other_namespace = element(47, false, false, "A");
    in_other_namespace.target_name = QualifiedName::new(1, "A");
    assert_eq!(
        space.find_nodes_relative_path(&user(1), &path(vec![in_other_namespace])),
        Ok(vec![])
    );
}
