//! The attribute service: reading the attributes of nodes.

use crate::address_space::{AddressSpace, AddressSpaceView, Node, NodeView};
use crate::comms::message::{SupportedMessage, SupportedMessageView};
use crate::date_time::DateTime;
use crate::node_id::NodeIdView;
use crate::service_types::monitored_item_messages::{ReadValueId, ReadValueIdView, ATTRIBUTE_VALUE};
use crate::service_types::request_header::RequestHeader;
use crate::service_types::response_header::{ResponseHeader, ResponseHeaderView};
use crate::service_types::secure_channel_messages::ServiceFault;
use crate::service_types::session_messages::{ReadRequest, ReadRequestView, ReadResponse};
use crate::services::Service;
use crate::status_codes::{
    StatusCode, BAD_ATTRIBUTE_ID_INVALID, BAD_NODE_ID_UNKNOWN, BAD_NOTHING_TO_DO, GOOD,
};
use crate::variant::{DataValue, DataValueView, Variant, VariantView};
use vstd::prelude::*;

verus! {

/// The attribute that holds the id of a node.
pub const ATTRIBUTE_NODE_ID: u32 = 1;

/// The attribute that holds the class of a node.
pub const ATTRIBUTE_NODE_CLASS: u32 = 2;

/// The attribute that holds the browse name of a node.
pub const ATTRIBUTE_BROWSE_NAME: u32 = 3;

/// The attribute that holds the display name of a node.
pub const ATTRIBUTE_DISPLAY_NAME: u32 = 4;

/// The attribute that holds the description of a node.
pub const ATTRIBUTE_DESCRIPTION: u32 = 5;

/// The attribute that holds the write mask of a node.
pub const ATTRIBUTE_WRITE_MASK: u32 = 6;

/// The attribute that holds the write mask of a node for the user.
pub const ATTRIBUTE_USER_WRITE_MASK: u32 = 7;

/// The number of the variable of the standard namespace whose value is the
/// time of the server.
pub const CURRENT_TIME: u32 = 2258;

/// The value that is read at the time `now`, stamped with that time by the
/// server.
pub open spec fn stamped(value: VariantView, now: DateTime) -> DataValueView {
    DataValueView {
        value: Some(value),
        status: Some(StatusCode(GOOD)),
        source_timestamp: None,
        source_picoseconds: None,
        server_timestamp: Some(now),
        server_picoseconds: None,
    }
}

/// What reading the attribute `attribute_id` of `node` at the time `now`
/// gives. The value of the variable that stands for the time of the server
/// is `now`; the value of another node is what the node holds. An attribute
/// that the node does not have gives `BAD_ATTRIBUTE_ID_INVALID`.
pub open spec fn attribute_of(node: NodeView, attribute_id: u32, now: DateTime) -> DataValueView {
    if attribute_id == ATTRIBUTE_NODE_ID {
        stamped(VariantView::NodeId(node.node_id), now)
    } else if attribute_id == ATTRIBUTE_NODE_CLASS {
        stamped(VariantView::Int32(node.node_class.spec_bit() as i32), now)
    } else if attribute_id == ATTRIBUTE_BROWSE_NAME {
        stamped(VariantView::QualifiedName(node.browse_name), now)
    } else if attribute_id == ATTRIBUTE_DISPLAY_NAME {
        stamped(VariantView::LocalizedText(node.display_name), now)
    } else if attribute_id == ATTRIBUTE_DESCRIPTION {
        stamped(VariantView::LocalizedText(node.description), now)
    } else if attribute_id == ATTRIBUTE_WRITE_MASK {
        stamped(VariantView::UInt32(node.write_mask), now)
    } else if attribute_id == ATTRIBUTE_USER_WRITE_MASK {
        stamped(VariantView::UInt32(node.user_write_mask), now)
    } else if attribute_id == ATTRIBUTE_VALUE {
        if node.node_id == NodeIdView::numeric(0, CURRENT_TIME) {
            stamped(VariantView::DateTime(now), now)
        } else {
            match node.value {
                Some(value) => value,
                None => DataValueView::of_status(StatusCode(BAD_ATTRIBUTE_ID_INVALID)),
            }
        }
    } else {
        DataValueView::of_status(StatusCode(BAD_ATTRIBUTE_ID_INVALID))
    }
}

/// What reading `read` at the time `now` gives: `BAD_NODE_ID_UNKNOWN` for
/// a node that the space does not hold, else the attribute of the node.
pub open spec fn read_result(space: AddressSpaceView, read: ReadValueIdView, now: DateTime) -> DataValueView {
    match space.find_node(read.node_id) {
        None => DataValueView::of_status(StatusCode(BAD_NODE_ID_UNKNOWN)),
        Some(node) => attribute_of(node, read.attribute_id, now),
    }
}

/// Whether `message` answers a read request with the handle
/// `request_handle` at the time `now` with the results `results`.
pub open spec fn is_read_response(
    message: SupportedMessageView,
    request_handle: u32,
    now: DateTime,
    results: Seq<DataValueView>,
) -> bool {
    message matches SupportedMessageView::ReadResponse(response) && response.response_header
        == ResponseHeaderView::answering(request_handle, now, StatusCode(GOOD))
        && response.results == Some(results) && response.diagnostic_infos is None
}

/// What a read request is answered with at the time `now`: a fault where
/// it names no nodes, else the result of each read in the order of the
/// request.
pub open spec fn is_read_outcome(
    space: AddressSpaceView,
    request: ReadRequestView,
    now: DateTime,
    message: SupportedMessageView,
) -> bool {
    match request.nodes_to_read {
        Some(nodes) if nodes.len() > 0 => is_read_response(
            message,
            request.request_header.request_handle,
            now,
            Seq::new(nodes.len(), |i: int| read_result(space, nodes[i], now)),
        ),
        _ => message == SupportedMessageView::fault(
            request.request_header.request_handle,
            now,
            StatusCode(BAD_NOTHING_TO_DO),
        ),
    }
}

/// Reads the attributes of nodes.
pub struct AttributeService {}

impl Service for AttributeService {
    fn service_fault(&self, request_header: &RequestHeader, service_result: StatusCode) -> (r:
        SupportedMessage) {
        ServiceFault::new_supported_message(request_header, service_result)
    }
}

/// A value stamped with the time `now` by the server.
fn stamp(value: Variant, now: DateTime) -> (r: DataValue)
    ensures
        r@ == stamped(value@, now),
{
    DataValue {
        value: Some(value),
        status: Some(StatusCode(GOOD)),
        source_timestamp: None,
        source_picoseconds: None,
        server_timestamp: Some(now),
        server_picoseconds: None,
    }
}

impl AttributeService {
    /// A new `AttributeService`.
    pub fn new() -> AttributeService {
        AttributeService {  }
    }

    /// Reads one attribute of a node at the time `now`.
    pub fn read_attribute(node: &Node, attribute_id: u32, now: DateTime) -> (r: DataValue)
        ensures
            r@ == attribute_of(node@, attribute_id, now),
    {
        if attribute_id == ATTRIBUTE_NODE_ID {
            stamp(Variant::NodeId(node.node_id().clone()), now)
        } else if attribute_id == ATTRIBUTE_NODE_CLASS {
            stamp(Variant::Int32(node.node_class().bit() as i32), now)
        } else if attribute_id == ATTRIBUTE_BROWSE_NAME {
            stamp(Variant::QualifiedName(node.browse_name().clone()), now)
        } else if attribute_id == ATTRIBUTE_DISPLAY_NAME {
            stamp(Variant::LocalizedText(node.display_name().clone()), now)
        } else if attribute_id == ATTRIBUTE_DESCRIPTION {
            stamp(Variant::LocalizedText(node.description.clone()), now)
        } else if attribute_id == ATTRIBUTE_WRITE_MASK {
            stamp(Variant::UInt32(node.write_mask), now)
        } else if attribute_id == ATTRIBUTE_USER_WRITE_MASK {
            stamp(Variant::UInt32(node.user_write_mask), now)
        } else if attribute_id == ATTRIBUTE_VALUE {
            if node.node_id().is_numeric() && node.node_id().namespace == 0 && is_number(
                node,
                CURRENT_TIME,
            ) {
                stamp(Variant::DateTime(now), now)
            } else {
                match node.value() {
                    Some(value) => value.clone(),
                    None => DataValue::from_status(StatusCode(BAD_ATTRIBUTE_ID_INVALID)),
                }
            }
        } else {
            DataValue::from_status(StatusCode(BAD_ATTRIBUTE_ID_INVALID))
        }
    }

    /// Reads what `read` names at the time `now`.
    pub fn read_value(address_space: &AddressSpace, read: &ReadValueId, now: DateTime) -> (r:
        DataValue)
        ensures
            r@ == read_result(address_space@, read@, now),
    {
        match address_space.find_node(&read.node_id) {
            None => DataValue::from_status(StatusCode(BAD_NODE_ID_UNKNOWN)),
            Some(node) => Self::read_attribute(node, read.attribute_id, now),
        }
    }

    /// Answers a read request at the time `now`.
    pub fn read_at(&self, address_space: &AddressSpace, request: ReadRequest, now: DateTime) -> (r:
        Result<SupportedMessage, StatusCode>)
        ensures
            r matches Ok(message) && is_read_outcome(address_space@, request@, now, message@),
    {
        let nodes = match &request.nodes_to_read {
            Some(nodes) => nodes,
            None => {
                return Ok(
                    ServiceFault::new_timestamped(
                        now,
                        &request.request_header,
                        StatusCode(BAD_NOTHING_TO_DO),
                    ),
                );
            },
        };
        if nodes.len() == 0 {
            return Ok(
                ServiceFault::new_timestamped(
                    now,
                    &request.request_header,
                    StatusCode(BAD_NOTHING_TO_DO),
                ),
            );
        }
        let ghost reads = nodes.deep_view();
        let mut results: Vec<DataValue> = Vec::new();
        let mut i: usize = 0;
        while i < nodes.len()
            invariant
                i <= nodes.len(),
                reads == nodes.deep_view(),
                reads.len() == nodes.len(),
                results.deep_view().len() == i,
                forall|j: int|
                    0 <= j < i ==> (#[trigger] results.deep_view()[j]) == read_result(
                        address_space@,
                        reads[j],
                        now,
                    ),
            decreases nodes.len() - i,
        {
            let ghost before = results.deep_view();
            assert(nodes[i as int]@ == reads[i as int]);
            let result = Self::read_value(address_space, &nodes[i], now);
            results.push(result);
            assert(results.deep_view() =~= before.push(result@));
            i = i + 1;
        }
        assert(results.deep_view() =~= Seq::new(
            reads.len(),
            |i: int| read_result(address_space@, reads[i], now),
        ));
        let response = ReadResponse {
            response_header: ResponseHeader::new_timestamped_service_result(
                now,
                &request.request_header,
                StatusCode(GOOD),
            ),
            results: Some(results),
            diagnostic_infos: None,
        };
        Ok(SupportedMessage::ReadResponse(response))
    }

    /// Answers a read request at the time of the system clock.
    pub fn read(&self, address_space: &AddressSpace, request: ReadRequest) -> (r: Result<
        SupportedMessage,
        StatusCode,
    >)
        ensures
            r matches Ok(message) && exists|now: DateTime| #[trigger]
                is_read_outcome(address_space@, request@, now, message@),
    {
        let now = DateTime::now();
        self.read_at(address_space, request, now)
    }
}

/// Whether the id of `node` is the number `number`.
fn is_number(node: &Node, number: u32) -> (r: bool)
    ensures
        r == (node@.node_id.identifier == crate::node_id::IdentifierView::Numeric(number)),
{
    match &node.node_id().identifier {
        crate::node_id::Identifier::Numeric(value) => *value == number,
        _ => false,
    }
}

/// Reading, at the time `now`, the value of the variable that stands for
/// the time of the server gives the time `now` with a good status,
/// stamped with that time, in every space that holds the variable.
pub proof fn lemma_server_time_is_the_time_of_the_read(
    space: AddressSpaceView,
    read: ReadValueIdView,
    now: DateTime,
)
    requires
        read.node_id == NodeIdView::numeric(0, CURRENT_TIME),
        read.attribute_id == ATTRIBUTE_VALUE,
        space.node_exists(read.node_id),
    ensures
        read_result(space, read, now) == stamped(VariantView::DateTime(now), now),
{
    space.lemma_find_node_from(read.node_id, 0);
}

/// A new address space holds the variable that stands for the time of the
/// server: reading its value at the time `now` gives the time `now`.
pub proof fn lemma_new_space_tells_the_time(read: ReadValueIdView, now: DateTime)
    requires
        read.node_id == NodeIdView::numeric(0, CURRENT_TIME),
        read.attribute_id == ATTRIBUTE_VALUE,
    ensures
        AddressSpaceView::standard().node_exists(read.node_id),
        read_result(AddressSpaceView::standard(), read, now) == stamped(
            VariantView::DateTime(now),
            now,
        ),
{
    let space = AddressSpaceView::standard();
    assert(space.nodes.len() == 7);
    assert(space.nodes[6].node_id == read.node_id);
    space.lemma_find_node_from(read.node_id, 0);
    lemma_server_time_is_the_time_of_the_read(space, read, now);
}

} // verus!
