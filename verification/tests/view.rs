use opcua_server::address_space::{AddressSpace, Node};
use opcua_server::basic_types::{ExpandedNodeId, ExtensionObject, LocalizedText, QualifiedName};
use opcua_server::byte_string::ByteString;
use opcua_server::comms::message::SupportedMessage;
use opcua_server::continuation_point::BrowseContinuationPoint;
use opcua_server::date_time::DateTime;
use opcua_server::node_id::NodeId;
use opcua_server::node_ids::ReferenceTypeId;
use opcua_server::service_types::relative_path::{BrowsePath, RelativePath, RelativePathElement};
use opcua_server::service_types::request_header::RequestHeader;
use opcua_server::service_types::translate_browse_paths_to_node_ids_request::TranslateBrowsePathsToNodeIdsRequest;
use opcua_server::service_types::view_messages::{
    BrowseDescription, BrowseDirection, BrowseNextRequest, BrowsePathResult, BrowsePathTarget,
    BrowseRequest, BrowseResult, NodeClass, ReferenceDescription, ViewDescription,
};
use opcua_server::services::view::{copy_descriptions, ViewService};
use opcua_server::services::Service;
use opcua_server::session::{id_is_among, Session};
use opcua_server::status_codes::{
    StatusCode, BAD_CONTINUATION_POINT_INVALID, BAD_NODE_ID_UNKNOWN, BAD_NOTHING_TO_DO,
    BAD_VIEW_ID_UNKNOWN, GOOD,
};
use opcua_server::string::UAString;

fn id(number: u32) -> NodeId {
    NodeId::new_numeric(0, number)
}

fn user(number: u32) -> NodeId {
    NodeId::new_numeric(1, number)
}

fn header() -> RequestHeader {
    RequestHeader {
        authentication_token: NodeId::null(),
        timestamp: DateTime::from_ticks(1),
        request_handle: 9,
        return_diagnostics: 0,
        audit_entry_id: UAString::null(),
        timeout_hint: 0,
        additional_header: ExtensionObject::null(),
    }
}

fn session() -> Session {
    Session::new(user(100), user(101), 60_000)
}

/// The standard folders and, below the objects, a folder with `count`
/// variables, each with a type definition.
fn space(count: u32) -> AddressSpace {
    let mut space = AddressSpace::new();
    space
        .add_object(Node::new(&user(1), NodeClass::Object, "Folder"), &id(85), ReferenceTypeId::Organizes)
        .unwrap();
    for i in 0..count {
        let variable = user(10 + i);
        let name = format!("V{}", i);
        space
            .add_variable(
                Node::new(&variable, NodeClass::Variable, &name),
                &user(1),
                ReferenceTypeId::HasComponent,
            )
            .unwrap();
        space.insert_reference(&variable, &id(63), ReferenceTypeId::HasTypeDefinition).unwrap();
    }
    space
}

fn describe(node: NodeId, direction: BrowseDirection, result_mask: u32) -> BrowseDescription {
    BrowseDescription {
        node_id: node,
        browse_direction: direction,
        reference_type_id: NodeId::null(),
        include_subtypes: false,
        node_class_mask: 0,
        result_mask,
    }
}

fn browse_request(nodes: Option<Vec<BrowseDescription>>, max: u32) -> BrowseRequest {
    BrowseRequest {
        request_header: header(),
        view: ViewDescription { view_id: NodeId::null(), timestamp: DateTime::null(), view_version: 0 },
        requested_max_references_per_node: max,
        nodes_to_browse: nodes,
    }
}

fn browse_results(message: Result<SupportedMessage, StatusCode>) -> Vec<BrowseResult> {
    match message {
        Ok(SupportedMessage::BrowseResponse(response)) => {
            assert_eq!(response.response_header.request_handle, 9);
            assert_eq!(response.response_header.service_result, StatusCode(GOOD));
            assert_eq!(response.diagnostic_infos, None);
            response.results.unwrap()
        }
        other => panic!("no browse response: {:?}", other),
    }
}

fn next_results(message: Result<SupportedMessage, StatusCode>) -> Option<Vec<BrowseResult>> {
    match message {
        Ok(SupportedMessage::BrowseNextResponse(response)) => {
            assert_eq!(response.response_header.request_handle, 9);
            assert_eq!(response.response_header.service_result, StatusCode(GOOD));
            assert_eq!(response.diagnostic_infos, None);
            response.results
        }
        other => panic!("no browse next response: {:?}", other),
    }
}

fn fault(message: Result<SupportedMessage, StatusCode>) -> StatusCode {
    match message {
        Ok(SupportedMessage::ServiceFault(fault)) => {
            assert_eq!(fault.response_header.request_handle, 9);
            fault.response_header.service_result
        }
        other => panic!("no fault: {:?}", other),
    }
}

fn next_request(points: Option<Vec<ByteString>>, release: bool) -> BrowseNextRequest {
    BrowseNextRequest {
        request_header: header(),
        release_continuation_points: release,
        continuation_points: points,
    }
}

fn names(result: &BrowseResult) -> Vec<String> {
    result
        .references
        .as_ref()
        .unwrap()
        .iter()
        .map(|r| r.browse_name.name.as_ref().to_string())
        .collect()
}

#[test]
fn browsing_the_root_finds_the_standard_folders() {
    let service = ViewService::new();
    let mut session = session();
    let space = AddressSpace::new();
    let request = browse_request(Some(vec![describe(id(84), BrowseDirection::Forward, 0x3f)]), 0);
    let results = browse_results(service.browse(&mut session, &space, request));
    assert_eq!(results.len(), 1);
    assert_eq!(results[0].status_code, StatusCode(GOOD));
    assert_eq!(results[0].continuation_point, ByteString::null());
    assert_eq!(names(&results[0]), vec!["Objects", "Types", "Views"]);
    let objects = &results[0].references.as_ref().unwrap()[0];
    assert_eq!(
        objects,
        &ReferenceDescription {
            reference_type_id: id(35),
            is_forward: true,
            node_id: ExpandedNodeId::new(id(85)),
            browse_name: QualifiedName::new(0, "Objects"),
            display_name: LocalizedText::new("", "Objects"),
            node_class: NodeClass::Object,
            type_definition: ExpandedNodeId::null(),
        }
    );
    assert_eq!(session.browse_continuation_point_count(), 0);
}

#[test]
fn browsing_an_unknown_node_gives_bad_node_id_unknown() {
    let service = ViewService::new();
    let mut session = session();
    let space = space(1);
    let unknown = BrowseResult {
        status_code: StatusCode(BAD_NODE_ID_UNKNOWN),
        continuation_point: ByteString::null(),
        references: None,
    };
    let request = browse_request(
        Some(vec![
            describe(user(999), BrowseDirection::Forward, 0x3f),
            describe(NodeId::null(), BrowseDirection::Forward, 0x3f),
            describe(user(1), BrowseDirection::Forward, 0x3f),
        ]),
        0,
    );
    let results = browse_results(service.browse(&mut session, &space, request));
    assert_eq!(results.len(), 3);
    assert_eq!(results[0], unknown);
    assert_eq!(results[1], unknown);
    assert_eq!(results[2].status_code, StatusCode(GOOD));
    assert_eq!(names(&results[2]), vec!["V0"]);
    assert_eq!(
        ViewService::browse_node(&mut session, &space, 0, &describe(user(999), BrowseDirection::Both, 0), 0),
        Err(StatusCode(BAD_NODE_ID_UNKNOWN))
    );
}

#[test]
fn result_mask_zero_leaves_the_optional_fields_null() {
    let service = ViewService::new();
    let mut session = session();
    let space = space(2);
    let request = browse_request(Some(vec![describe(user(1), BrowseDirection::Both, 0)]), 0);
    let results = browse_results(service.browse(&mut session, &space, request));
    let references = results[0].references.as_ref().unwrap();
    assert_eq!(references.len(), 3);
    for (reference, target) in references.iter().zip([user(10), user(11), id(85)]) {
        assert_eq!(
            reference,
            &ReferenceDescription {
                reference_type_id: NodeId::null(),
                is_forward: true,
                node_id: ExpandedNodeId::new(target),
                browse_name: QualifiedName::null(),
                display_name: LocalizedText::null(),
                node_class: NodeClass::Unspecified,
                type_definition: ExpandedNodeId::null(),
            }
        );
    }
}

#[test]
fn result_mask_selects_each_field() {
    let mut session = session();
    let space = space(1);
    let browse = |mask: u32| {
        let mut session = Session::new(user(1), user(2), 0);
        let result = ViewService::browse_node(
            &mut session,
            &space,
            0,
            &describe(user(1), BrowseDirection::Both, mask),
            0,
        )
        .unwrap();
        result.references.unwrap()
    };
    let bare = |target: NodeId| ReferenceDescription {
        reference_type_id: NodeId::null(),
        is_forward: true,
        node_id: ExpandedNodeId::new(target),
        browse_name: QualifiedName::null(),
        display_name: LocalizedText::null(),
        node_class: NodeClass::Unspecified,
        type_definition: ExpandedNodeId::null(),
    };
    let mut expected = vec![bare(user(10)), bare(id(85))];
    expected[0].reference_type_id = id(47);
    expected[1].reference_type_id = id(35);
    assert_eq!(browse(1), expected);
    let mut expected = vec![bare(user(10)), bare(id(85))];
    expected[1].is_forward = false;
    assert_eq!(browse(2), expected);
    let mut expected = vec![bare(user(10)), bare(id(85))];
    expected[0].node_class = NodeClass::Variable;
    expected[1].node_class = NodeClass::Object;
    assert_eq!(browse(4), expected);
    let mut expected = vec![bare(user(10)), bare(id(85))];
    expected[0].browse_name = QualifiedName::new(0, "V0");
    expected[1].browse_name = QualifiedName::new(0, "Objects");
    assert_eq!(browse(8), expected);
    let mut expected = vec![bare(user(10)), bare(id(85))];
    expected[0].display_name = LocalizedText::new("", "V0");
    expected[1].display_name = LocalizedText::new("", "Objects");
    assert_eq!(browse(16), expected);
    let mut expected = vec![bare(user(10)), bare(id(85))];
    expected[0].type_definition = ExpandedNodeId::new(id(63));
    assert_eq!(browse(32), expected);
    assert_eq!(session.browse_continuation_point_count(), 0);
}

#[test]
fn targets_are_filtered_by_class_type_and_existence() {
    let mut session = session();
    let mut space = space(2);
    space
        .add_method(Node::new(&user(50), NodeClass::Method, "M"), &user(1), ReferenceTypeId::HasComponent)
        .unwrap();
    // a reference to a node that is not there, and one to the null node
    space.insert_reference(&user(1), &user(77), ReferenceTypeId::HasComponent).unwrap();
    space.insert_reference(&user(1), &NodeId::null(), ReferenceTypeId::HasComponent).unwrap();
    let mut node = describe(user(1), BrowseDirection::Forward, 8);
    let all = ViewService::browse_node(&mut session, &space, 0, &node, 0).unwrap();
    assert_eq!(names(&all), vec!["V0", "V1", "M"]);
    node.node_class_mask = 4;
    let methods = ViewService::browse_node(&mut session, &space, 0, &node, 0).unwrap();
    assert_eq!(names(&methods), vec!["M"]);
    node.node_class_mask = 2 | 4;
    let both = ViewService::browse_node(&mut session, &space, 0, &node, 0).unwrap();
    assert_eq!(names(&both), vec!["V0", "V1", "M"]);
    node.node_class_mask = 1;
    let objects = ViewService::browse_node(&mut session, &space, 0, &node, 0).unwrap();
    assert_eq!(names(&objects), Vec::<String>::new());
    node.node_class_mask = 0;
    node.reference_type_id = id(35);
    node.browse_direction = BrowseDirection::Both;
    let organizes = ViewService::browse_node(&mut session, &space, 0, &node, 0).unwrap();
    assert_eq!(names(&organizes), vec!["Objects"]);
    // a starting index leaves the first references out
    node.reference_type_id = NodeId::null();
    let later = ViewService::browse_node(&mut session, &space, 2, &node, 0).unwrap();
    assert_eq!(names(&later), vec!["M", "Objects"]);
}

#[test]
fn more_references_than_the_maximum_are_returned_in_parts() {
    let service = ViewService::new();
    let mut session = session();
    let space = space(5);
    // five references, three at once
    let request = browse_request(Some(vec![describe(user(1), BrowseDirection::Forward, 8)]), 3);
    let results = browse_results(service.browse(&mut session, &space, request));
    assert_eq!(results[0].status_code, StatusCode(GOOD));
    assert_eq!(names(&results[0]), vec!["V0", "V1", "V2"]);
    let point = results[0].continuation_point.clone();
    assert!(!point.is_null());
    assert_eq!(point.as_ref().len(), 6);
    assert_eq!(session.browse_continuation_point_count(), 1);

    let next = next_request(Some(vec![point.clone()]), false);
    let results = next_results(service.browse_next(&mut session, &space, next)).unwrap();
    assert_eq!(results.len(), 1);
    assert_eq!(results[0].status_code, StatusCode(GOOD));
    assert_eq!(names(&results[0]), vec!["V3", "V4"]);
    assert_eq!(results[0].continuation_point, ByteString::null());
    assert_eq!(session.browse_continuation_point_count(), 0);

    let again = next_request(Some(vec![point]), false);
    let results = next_results(service.browse_next(&mut session, &space, again)).unwrap();
    assert_eq!(
        results,
        vec![BrowseResult {
            status_code: StatusCode(BAD_CONTINUATION_POINT_INVALID),
            continuation_point: ByteString::null(),
            references: None,
        }]
    );
}

#[test]
fn a_long_result_takes_several_continuation_points() {
    let service = ViewService::new();
    let mut session = session();
    let space = space(7);
    let request = browse_request(Some(vec![describe(user(1), BrowseDirection::Forward, 8)]), 3);
    let results = browse_results(service.browse(&mut session, &space, request));
    assert_eq!(names(&results[0]), vec!["V0", "V1", "V2"]);
    let first = results[0].continuation_point.clone();
    let results = next_results(service.browse_next(
        &mut session,
        &space,
        next_request(Some(vec![first.clone()]), false),
    ))
    .unwrap();
    assert_eq!(names(&results[0]), vec!["V3", "V4", "V5"]);
    let second = results[0].continuation_point.clone();
    assert!(!second.is_null());
    assert_eq!(session.browse_continuation_point_count(), 1);
    let results = next_results(service.browse_next(
        &mut session,
        &space,
        next_request(Some(vec![first, second]), false),
    ))
    .unwrap();
    assert_eq!(results[0].status_code, StatusCode(BAD_CONTINUATION_POINT_INVALID));
    assert_eq!(names(&results[1]), vec!["V6"]);
    assert_eq!(results[1].continuation_point, ByteString::null());
}

#[test]
fn exactly_the_maximum_needs_no_continuation_point() {
    let mut session = session();
    let space = space(3);
    let node = describe(user(1), BrowseDirection::Forward, 8);
    let result = ViewService::browse_node(&mut session, &space, 0, &node, 3).unwrap();
    assert_eq!(names(&result), vec!["V0", "V1", "V2"]);
    assert_eq!(result.continuation_point, ByteString::null());
    let result = ViewService::browse_node(&mut session, &space, 0, &node, 2).unwrap();
    assert_eq!(names(&result), vec!["V0", "V1"]);
    assert!(!result.continuation_point.is_null());
}

#[test]
fn release_returns_nothing_and_discards_the_point() {
    let service = ViewService::new();
    let mut session = session();
    let space = space(5);
    let request = browse_request(
        Some(vec![
            describe(user(1), BrowseDirection::Forward, 8),
            describe(user(1), BrowseDirection::Forward, 8),
        ]),
        2,
    );
    let results = browse_results(service.browse(&mut session, &space, request));
    let first = results[0].continuation_point.clone();
    let second = results[1].continuation_point.clone();
    assert_eq!(session.browse_continuation_point_count(), 2);
    let release = next_request(Some(vec![first.clone()]), true);
    assert_eq!(next_results(service.browse_next(&mut session, &space, release)), None);
    assert_eq!(session.browse_continuation_point_count(), 1);
    let results = next_results(service.browse_next(
        &mut session,
        &space,
        next_request(Some(vec![first, second]), false),
    ))
    .unwrap();
    assert_eq!(results[0].status_code, StatusCode(BAD_CONTINUATION_POINT_INVALID));
    assert_eq!(names(&results[1]), vec!["V2", "V3"]);
}

#[test]
fn a_change_of_the_address_space_ends_the_continuation_points() {
    let service = ViewService::new();
    let mut session = session();
    let mut space = space(5);
    let request = browse_request(Some(vec![describe(user(1), BrowseDirection::Forward, 8)]), 2);
    let results = browse_results(service.browse(&mut session, &space, request));
    let point = results[0].continuation_point.clone();
    space.insert(Node::new(&user(200), NodeClass::Object, "New")).unwrap();
    let results = next_results(service.browse_next(
        &mut session,
        &space,
        next_request(Some(vec![point]), false),
    ))
    .unwrap();
    assert_eq!(results[0].status_code, StatusCode(BAD_CONTINUATION_POINT_INVALID));
    assert_eq!(session.browse_continuation_point_count(), 0);
}

#[test]
fn browse_without_nodes_or_with_a_view_is_a_fault() {
    let service = ViewService::new();
    let mut session = session();
    let space = space(1);
    let nothing = browse_request(None, 0);
    assert_eq!(fault(service.browse(&mut session, &space, nothing)), StatusCode(BAD_NOTHING_TO_DO));
    let mut in_view = browse_request(Some(vec![describe(id(84), BrowseDirection::Forward, 0)]), 0);
    in_view.view.view_id = user(5);
    assert_eq!(fault(service.browse(&mut session, &space, in_view)), StatusCode(BAD_VIEW_ID_UNKNOWN));
    let next = next_request(None, false);
    assert_eq!(fault(service.browse_next(&mut session, &space, next)), StatusCode(BAD_NOTHING_TO_DO));
    assert_eq!(
        fault(Ok(service.service_fault(&header(), StatusCode(BAD_NODE_ID_UNKNOWN)))),
        StatusCode(BAD_NODE_ID_UNKNOWN)
    );
    // no nodes at all is an empty list of results
    let empty = browse_request(Some(vec![]), 0);
    assert_eq!(browse_results(service.browse(&mut session, &space, empty)), vec![]);
}

#[test]
fn session_keeps_and_finds_continuation_points() {
    let mut session = session();
    let space = AddressSpace::new();
    let now = space.last_modified();
    let point = |id: u8, stamp: u64, max: usize| {
        BrowseContinuationPoint::new(
            ByteString::from(vec![id]),
            stamp,
            DateTime::from_ticks(0),
            max,
            0,
            vec![],
        )
    };
    session.add_browse_continuation_point(point(1, now, 1));
    session.add_browse_continuation_point(point(2, now - 1, 1));
    session.add_browse_continuation_point(point(3, now, 1));
    assert_eq!(session.browse_continuation_point_count(), 3);
    // A point takes the place of the point with the same id.
    session.add_browse_continuation_point(point(1, now, 5));
    assert_eq!(session.browse_continuation_point_count(), 3);
    session.add_browse_continuation_point(point(5, now + 1, 1));
    assert_eq!(session.browse_continuation_point_count(), 4);
    // Points with another stamp than that of the space go.
    session.remove_expired_browse_continuation_points(&space);
    assert_eq!(session.browse_continuation_point_count(), 2);
    assert!(session.find_browse_continuation_point(&ByteString::from(vec![2])).is_none());
    assert!(session.find_browse_continuation_point(&ByteString::from(vec![5])).is_none());
    let found = session.find_browse_continuation_point(&ByteString::from(vec![1])).unwrap();
    assert_eq!(found.address_space_last_modified(), now);
    assert_eq!(found.id(), &ByteString::from(vec![1]));
    assert_eq!(found.max_references_per_node(), 5);
    assert_eq!(found.starting_index(), 0);
    assert_eq!(found.reference_descriptions().len(), 0);
    assert_eq!(found.created_at(), DateTime::from_ticks(0));
    let start = DateTime::from_ticks(0);
    assert!(found.is_valid_browse_continuation_point(&space, &start, 0));
    // 60 000 ms are 600 000 000 ticks.
    let end = DateTime::from_ticks(600_000_000);
    assert!(found.is_valid_browse_continuation_point(&space, &end, 60_000));
    let late = DateTime::from_ticks(600_000_001);
    assert!(!found.is_valid_browse_continuation_point(&space, &late, 60_000));
    assert!(session.find_browse_continuation_point(&ByteString::from(vec![1])).is_none());
    assert_eq!(session.browse_continuation_point_count(), 1);
    session.add_browse_continuation_point(point(4, now, 1));
    session.remove_browse_continuation_points(&[ByteString::from(vec![3]), ByteString::from(vec![9])]);
    assert_eq!(session.browse_continuation_point_count(), 1);
    assert!(session.find_browse_continuation_point(&ByteString::from(vec![4])).is_some());
    assert!(id_is_among(&ByteString::null(), &[ByteString::from(vec![]), ByteString::null()]));
    assert!(!id_is_among(&ByteString::null(), &[ByteString::from(vec![])]));
}

#[test]
fn session_knows_who_it_is() {
    let mut session = session();
    assert_eq!(session.session_id(), &user(100));
    assert_eq!(session.authentication_token(), &user(101));
    assert_eq!(session.session_timeout(), 60_000);
    assert!(!session.is_activated());
    session.set_activated(true);
    assert!(session.is_activated());
}

#[test]
fn descriptions_are_copied_by_range() {
    let described = |n: u32| ReferenceDescription {
        reference_type_id: id(n),
        is_forward: true,
        node_id: ExpandedNodeId::new(user(n)),
        browse_name: QualifiedName::new(0, "x"),
        display_name: LocalizedText::null(),
        node_class: NodeClass::Object,
        type_definition: ExpandedNodeId::null(),
    };
    let all = vec![described(1), described(2), described(3)];
    assert_eq!(copy_descriptions(&all, 1, 3), vec![described(2), described(3)]);
    assert_eq!(copy_descriptions(&all, 2, 2), vec![]);
    assert_eq!(copy_descriptions(&all, 0, 3), all);
}

#[test]
fn browse_paths_are_translated() {
    let service = ViewService::new();
    let space = space(2);
    let element = |kind: u32, name: &str| RelativePathElement {
        reference_type_id: id(kind),
        is_inverse: false,
        include_subtypes: false,
        target_name: QualifiedName::new(0, name),
    };
    let path = |start: NodeId, elements: Option<Vec<RelativePathElement>>| BrowsePath {
        starting_node: start,
        relative_path: RelativePath { elements },
    };
    let request = TranslateBrowsePathsToNodeIdsRequest {
        request_header: header(),
        browse_paths: Some(vec![
            path(id(84), Some(vec![element(35, "Objects"), element(35, "Folder"), element(47, "V1")])),
            path(id(84), Some(vec![element(35, "Nowhere")])),
            path(id(84), None),
            path(user(999), Some(vec![element(35, "Objects")])),
        ]),
    };
    let results = match service.translate_browse_paths_to_node_ids(&space, request) {
        Ok(SupportedMessage::TranslateBrowsePathsToNodeIdsResponse(response)) => {
            assert_eq!(response.response_header.request_handle, 9);
            assert_eq!(response.response_header.service_result, StatusCode(GOOD));
            assert_eq!(response.diagnostic_infos, None);
            response.results.unwrap()
        }
        other => panic!("no response: {:?}", other),
    };
    assert_eq!(
        results,
        vec![
            BrowsePathResult {
                status_code: StatusCode(GOOD),
                targets: Some(vec![BrowsePathTarget {
                    target_id: ExpandedNodeId::new(user(11)),
                    remaining_path_index: u32::MAX,
                }]),
            },
            BrowsePathResult { status_code: StatusCode(GOOD), targets: None },
            BrowsePathResult { status_code: StatusCode(BAD_NOTHING_TO_DO), targets: None },
            BrowsePathResult { status_code: StatusCode(BAD_NODE_ID_UNKNOWN), targets: None },
        ]
    );
    let nothing = TranslateBrowsePathsToNodeIdsRequest { request_header: header(), browse_paths: None };
    assert_eq!(
        fault(service.translate_browse_paths_to_node_ids(&space, nothing)),
        StatusCode(BAD_NOTHING_TO_DO)
    );
    let empty = TranslateBrowsePathsToNodeIdsRequest {
        request_header: header(),
        browse_paths: Some(vec![]),
    };
    assert_eq!(
        fault(service.translate_browse_paths_to_node_ids(&space, empty)),
        StatusCode(BAD_NOTHING_TO_DO)
    );
}

#[test]
fn a_continuation_point_ends_with_its_time() {
    let service = ViewService::new();
    let mut session = session();
    let space = space(5);
    let made = DateTime::from_ticks(1_000_000_000);
    session.set_last_activity(made);
    let request = browse_request(Some(vec![describe(user(1), BrowseDirection::Forward, 8)]), 2);
    let results = browse_results(service.browse(&mut session, &space, request));
    assert_eq!(names(&results[0]), vec!["V0", "V1"]);
    let first = results[0].continuation_point.clone();
    assert_eq!(first.as_ref().len(), 6);

    // Within the timeout of the session, of 60 000 ms, the point goes on.
    session.set_last_activity(DateTime::from_ticks(1_000_000_000 + 600_000_000));
    let next = next_request(Some(vec![first.clone()]), false);
    let results = next_results(service.browse_next(&mut session, &space, next)).unwrap();
    assert_eq!(results[0].status_code, StatusCode(GOOD));
    assert_eq!(names(&results[0]), vec!["V2", "V3"]);
    let second = results[0].continuation_point.clone();
    assert_eq!(second.as_ref().len(), 6);
    assert_eq!(session.browse_continuation_point_count(), 1);

    // The second point was made at the later time: one tick after its time
    // is over it is gone.
    session.set_last_activity(DateTime::from_ticks(1_000_000_000 + 1_200_000_001));
    let next = next_request(Some(vec![second]), false);
    let results = next_results(service.browse_next(&mut session, &space, next)).unwrap();
    assert_eq!(
        results,
        vec![BrowseResult {
            status_code: StatusCode(BAD_CONTINUATION_POINT_INVALID),
            continuation_point: ByteString::null(),
            references: None,
        }]
    );
    assert_eq!(session.browse_continuation_point_count(), 0);
}
