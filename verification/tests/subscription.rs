use opcua_server::address_space::{AddressSpace, Node};
use opcua_server::basic_types::{ExtensionObject, ExtensionObjectEncoding, QualifiedName};
use opcua_server::date_time::DateTime;
use opcua_server::encoding::DecodingLimits;
use opcua_server::node_id::NodeId;
use opcua_server::node_ids::ReferenceTypeId;
use opcua_server::service_types::monitored_item_messages::{
    DataChangeNotification, MonitoredItemCreateRequest, MonitoringMode, MonitoringParameters,
    PublishRequest, ReadValueId, SubscriptionAcknowledgement, ATTRIBUTE_VALUE,
};
use opcua_server::service_types::notification_message::NotificationMessage;
use opcua_server::service_types::publish_response::PublishResponse;
use opcua_server::service_types::request_header::RequestHeader;
use opcua_server::status_codes::{
    StatusCode, BAD_MESSAGE_NOT_AVAILABLE, BAD_SEQUENCE_NUMBER_UNKNOWN,
    BAD_SUBSCRIPTION_ID_INVALID, BAD_TIMEOUT, GOOD,
};
use opcua_server::string::UAString;
use opcua_server::subscriptions::monitored_item::MonitoredItem;
use opcua_server::subscriptions::subscription::{
    copy_message, Subscription, SubscriptionState, TickAction,
};
use opcua_server::subscriptions::subscriptions::Subscriptions;
use opcua_server::variant::{DataValue, Variant};

fn variable(number: u32) -> NodeId {
    NodeId::new_numeric(1, number)
}

fn space(count: u32) -> AddressSpace {
    let mut space = AddressSpace::new();
    for i in 0..count {
        space
            .add_variable(
                Node::new_variable(&variable(i), "v", DataValue::new(Variant::UInt32(0))),
                &NodeId::new_numeric(0, 85),
                ReferenceTypeId::Organizes,
            )
            .unwrap();
    }
    space
}

fn set(space: &mut AddressSpace, number: u32, value: u32) {
    assert!(space.set_variable_value(&variable(number), DataValue::new(Variant::UInt32(value))));
}

fn item(id: u32, number: u32, handle: u32) -> MonitoredItem {
    let request = MonitoredItemCreateRequest {
        item_to_monitor: ReadValueId {
            node_id: variable(number),
            attribute_id: ATTRIBUTE_VALUE,
            index_range: UAString::null(),
            data_encoding: QualifiedName::null(),
        },
        monitoring_mode: MonitoringMode::Reporting,
        requested_parameters: MonitoringParameters {
            client_handle: handle,
            sampling_interval: -1,
            filter: ExtensionObject::null(),
            queue_size: 10,
            discard_oldest: true,
        },
    };
    MonitoredItem::new(id, &request).unwrap()
}

fn subscription(id: u32, lifetime: u32, keep_alive: u32, max_notifications: u32) -> Subscription {
    Subscription::new(id, true, 100, lifetime, keep_alive, max_notifications, 0)
}

fn publish_request(handle: u32, acknowledgements: Option<Vec<(u32, u32)>>) -> PublishRequest {
    PublishRequest {
        request_header: RequestHeader {
            authentication_token: NodeId::null(),
            timestamp: DateTime::from_ticks(1),
            request_handle: handle,
            return_diagnostics: 0,
            audit_entry_id: UAString::null(),
            timeout_hint: 0,
            additional_header: ExtensionObject::null(),
        },
        subscription_acknowledgements: acknowledgements.map(|list| {
            list.into_iter()
                .map(|(subscription_id, sequence_number)| SubscriptionAcknowledgement {
                    subscription_id,
                    sequence_number,
                })
                .collect()
        }),
    }
}

/// The values that a notification message carries, with their handles.
fn carried(message: &NotificationMessage) -> Vec<(u32, u32)> {
    let data = message.notification_data.as_ref().unwrap();
    assert_eq!(data.len(), 1);
    assert_eq!(data[0].node_id, NodeId::new_numeric(0, 811));
    let notification = data[0].decode_inner::<DataChangeNotification>(&DecodingLimits::default()).unwrap();
    assert_eq!(notification.diagnostic_infos, None);
    notification
        .monitored_items
        .unwrap()
        .into_iter()
        .map(|n| match n.value.value {
            Some(Variant::UInt32(v)) => (n.client_handle, v),
            other => panic!("another value was carried: {:?}", other),
        })
        .collect()
}

#[test]
fn new_subscription_is_creating() {
    let subscription = subscription(5, 10, 3, 0);
    assert_eq!(subscription.subscription_id, 5);
    assert_eq!(subscription.state, SubscriptionState::Creating);
    assert_eq!(subscription.publishing_interval, 100);
    assert_eq!(subscription.lifetime_count, 10);
    assert_eq!(subscription.max_keep_alive_count, 3);
    assert_eq!(subscription.last_sequence_number, 0);
    assert!(subscription.publishing_enabled);
    assert!(!subscription.has_notifications());
    assert_eq!(subscription.available_sequence_numbers(), Vec::<u32>::new());
}

#[test]
fn keep_alive_comes_after_the_maximum_of_ticks() {
    let space = space(0);
    let mut subscription = subscription(1, 100, 3, 0);
    let now = DateTime::from_ticks(1000);
    assert_eq!(subscription.tick(&space, &now, true, &[]), TickAction::Nothing);
    assert_eq!(subscription.state, SubscriptionState::Normal);
    assert_eq!(subscription.tick(&space, &now, true, &[]), TickAction::Nothing);
    assert_eq!(subscription.keep_alive_counter, 2);
    assert_eq!(
        subscription.tick(&space, &now, true, &[]),
        TickAction::KeepAlive(NotificationMessage {
            sequence_number: 1,
            publish_time: now,
            notification_data: None,
        })
    );
    assert_eq!(subscription.state, SubscriptionState::KeepAlive);
    assert_eq!(subscription.keep_alive_counter, 0);
    assert_eq!(subscription.last_sequence_number, 0);
    assert_eq!(subscription.available_sequence_numbers(), Vec::<u32>::new());
    // and again after three more
    assert_eq!(subscription.tick(&space, &now, true, &[]), TickAction::Nothing);
    assert_eq!(subscription.tick(&space, &now, true, &[]), TickAction::Nothing);
    assert!(matches!(subscription.tick(&space, &now, true, &[]), TickAction::KeepAlive(_)));
}

#[test]
fn keep_alive_waits_for_a_publish_request() {
    let space = space(0);
    let mut subscription = subscription(1, 100, 2, 0);
    let now = DateTime::from_ticks(1000);
    assert_eq!(subscription.tick(&space, &now, false, &[]), TickAction::Nothing);
    assert_eq!(subscription.tick(&space, &now, false, &[]), TickAction::Nothing);
    assert_eq!(subscription.state, SubscriptionState::Late);
    assert_eq!(subscription.lifetime_counter, 2);
    assert!(matches!(subscription.tick(&space, &now, true, &[]), TickAction::KeepAlive(_)));
    assert_eq!(subscription.lifetime_counter, 0);
}

#[test]
fn subscription_ends_without_publish_requests() {
    let space = space(0);
    let mut subscription = subscription(1, 3, 100, 0);
    let now = DateTime::from_ticks(1000);
    assert_eq!(subscription.tick(&space, &now, false, &[]), TickAction::Nothing);
    assert_eq!(subscription.tick(&space, &now, false, &[]), TickAction::Nothing);
    assert_eq!(
        subscription.tick(&space, &now, false, &[]),
        TickAction::Ended(StatusCode(BAD_TIMEOUT))
    );
    assert_eq!(subscription.state, SubscriptionState::Closed);
    let closed = subscription.clone();
    assert_eq!(subscription.tick(&space, &now, true, &[]), TickAction::Nothing);
    assert_eq!(subscription, closed);
    // a publish request in time starts the count again
    let mut subscription = Subscription::new(1, true, 100, 3, 100, 0, 0);
    assert_eq!(subscription.tick(&space, &now, false, &[]), TickAction::Nothing);
    assert_eq!(subscription.tick(&space, &now, false, &[]), TickAction::Nothing);
    assert_eq!(subscription.tick(&space, &now, true, &[]), TickAction::Nothing);
    assert_eq!(subscription.tick(&space, &now, false, &[]), TickAction::Nothing);
    assert_eq!(subscription.state, SubscriptionState::Normal);
}

#[test]
fn data_changes_are_published_with_their_handles() {
    let mut space = space(2);
    let mut subscription = subscription(1, 100, 10, 0);
    subscription.monitored_items.push(item(1, 0, 100));
    subscription.monitored_items.push(item(2, 1, 200));
    let now = DateTime::from_ticks(1000);
    let message = match subscription.tick(&space, &now, true, &[]) {
        TickAction::Publish(message, more) => {
            assert!(!more);
            message
        }
        other => panic!("nothing was published: {:?}", other),
    };
    assert_eq!(message.sequence_number, 1);
    assert_eq!(message.publish_time, now);
    assert_eq!(carried(&message), vec![(100, 0), (200, 0)]);
    assert_eq!(subscription.state, SubscriptionState::Normal);
    assert_eq!(subscription.last_sequence_number, 1);
    // nothing has changed: nothing to publish
    assert_eq!(subscription.tick(&space, &now, true, &[]), TickAction::Nothing);
    set(&mut space, 1, 42);
    let message = match subscription.tick(&space, &now, true, &[]) {
        TickAction::Publish(message, _) => message,
        other => panic!("nothing was published: {:?}", other),
    };
    assert_eq!(message.sequence_number, 2);
    assert_eq!(carried(&message), vec![(200, 42)]);
    assert_eq!(subscription.available_sequence_numbers(), vec![1, 2]);
}

#[test]
fn messages_hold_no_more_than_the_maximum() {
    let mut space = space(2);
    let mut subscription = subscription(1, 100, 10, 3);
    subscription.monitored_items.push(item(1, 0, 100));
    subscription.monitored_items.push(item(2, 1, 200));
    let now = DateTime::from_ticks(1000);
    // queue three values of each variable while no publish request waits
    for value in 1..=3 {
        set(&mut space, 0, value);
        set(&mut space, 1, value + 10);
        assert_eq!(subscription.tick(&space, &now, false, &[]), TickAction::Nothing);
        assert_eq!(subscription.state, SubscriptionState::Late);
    }
    assert!(subscription.has_notifications());
    let first = match subscription.tick(&space, &now, true, &[]) {
        TickAction::Publish(message, more) => {
            assert!(more);
            message
        }
        other => panic!("nothing was published: {:?}", other),
    };
    assert_eq!(carried(&first), vec![(100, 1), (100, 2), (100, 3)]);
    let second = match subscription.tick(&space, &now, true, &[]) {
        TickAction::Publish(message, more) => {
            assert!(!more);
            message
        }
        other => panic!("nothing was published: {:?}", other),
    };
    assert_eq!(carried(&second), vec![(200, 11), (200, 12), (200, 13)]);
    assert_eq!((first.sequence_number, second.sequence_number), (1, 2));
    assert!(!subscription.has_notifications());
}

#[test]
fn the_maximum_is_shared_between_items() {
    let mut space = space(2);
    let mut subscription = subscription(1, 100, 10, 3);
    subscription.monitored_items.push(item(1, 0, 100));
    subscription.monitored_items.push(item(2, 1, 200));
    let now = DateTime::from_ticks(1000);
    for value in 1..=2 {
        set(&mut space, 0, value);
        set(&mut space, 1, value + 10);
        subscription.tick(&space, &now, false, &[]);
    }
    let first = match subscription.tick(&space, &now, true, &[]) {
        TickAction::Publish(message, more) => {
            assert!(more);
            message
        }
        other => panic!("nothing was published: {:?}", other),
    };
    assert_eq!(carried(&first), vec![(100, 1), (100, 2), (200, 11)]);
    assert_eq!(subscription.monitored_items[0].notification_queue.len(), 0);
    assert_eq!(subscription.monitored_items[1].notification_queue.len(), 1);
}

#[test]
fn disabled_publishing_sends_keep_alives_only() {
    let space = space(1);
    let mut subscription = Subscription::new(1, false, 100, 100, 2, 0, 0);
    subscription.monitored_items.push(item(1, 0, 100));
    let now = DateTime::from_ticks(1000);
    assert_eq!(subscription.tick(&space, &now, true, &[]), TickAction::Nothing);
    assert!(subscription.has_notifications());
    assert!(matches!(subscription.tick(&space, &now, true, &[]), TickAction::KeepAlive(_)));
    assert!(subscription.has_notifications());
}

#[test]
fn sequence_numbers_start_again_after_the_largest() {
    let mut space = space(1);
    let mut subscription = subscription(1, 100, 10, 0);
    subscription.monitored_items.push(item(1, 0, 100));
    subscription.last_sequence_number = u32::MAX - 1;
    let now = DateTime::from_ticks(1000);
    let mut numbers = Vec::new();
    for value in 1..=3 {
        set(&mut space, 0, value);
        match subscription.tick(&space, &now, true, &[]) {
            TickAction::Publish(message, _) => numbers.push(message.sequence_number),
            other => panic!("nothing was published: {:?}", other),
        }
    }
    assert_eq!(numbers, vec![u32::MAX, 1, 2]);
}

#[test]
fn republish_returns_the_kept_message() {
    let mut space = space(1);
    let mut subscription = subscription(1, 100, 10, 0);
    subscription.monitored_items.push(item(1, 0, 100));
    let now = DateTime::from_ticks(1000);
    let mut sent = Vec::new();
    for value in 1..=2 {
        set(&mut space, 0, value);
        match subscription.tick(&space, &now, true, &[]) {
            TickAction::Publish(message, _) => sent.push(message),
            other => panic!("nothing was published: {:?}", other),
        }
    }
    assert_eq!(subscription.republish(2), Ok(copy_message(&sent[1])));
    assert_eq!(subscription.republish(1), Ok(copy_message(&sent[0])));
    assert_eq!(subscription.republish(3), Err(StatusCode(BAD_MESSAGE_NOT_AVAILABLE)));
    assert_eq!(subscription.republish(0), Err(StatusCode(BAD_MESSAGE_NOT_AVAILABLE)));
    // an acknowledged message is no longer kept
    assert_eq!(subscription.acknowledge(1), StatusCode(GOOD));
    assert_eq!(subscription.acknowledge(1), StatusCode(BAD_SEQUENCE_NUMBER_UNKNOWN));
    assert_eq!(subscription.republish(1), Err(StatusCode(BAD_MESSAGE_NOT_AVAILABLE)));
    assert_eq!(subscription.republish(2), Ok(copy_message(&sent[1])));
    assert_eq!(subscription.available_sequence_numbers(), vec![2]);
}

fn handles(responses: &[PublishResponse]) -> Vec<(u32, u32)> {
    responses.iter().map(|r| (r.response_header.request_handle, r.subscription_id)).collect()
}

#[test]
fn publish_requests_are_paired_with_messages_in_their_order() {
    let mut space = space(2);
    let mut subscriptions = Subscriptions::new();
    let mut first = subscription(1, 100, 10, 0);
    first.monitored_items.push(item(1, 0, 100));
    let mut second = subscription(2, 100, 10, 0);
    second.monitored_items.push(item(1, 1, 200));
    subscriptions.insert(first);
    subscriptions.insert(second);
    let now = DateTime::from_ticks(1000);
    // no publish request: both are late
    assert_eq!(subscriptions.tick(&space, &now, &[]), vec![]);
    assert_eq!(subscriptions.subscriptions[0].state, SubscriptionState::Late);
    assert_eq!(subscriptions.subscriptions[1].state, SubscriptionState::Late);
    // one publish request: the first subscription takes it
    subscriptions.enqueue_publish_request(publish_request(71, None));
    let responses = subscriptions.tick(&space, &now, &[]);
    assert_eq!(handles(&responses), vec![(71, 1)]);
    assert_eq!(responses[0].response_header.service_result, StatusCode(GOOD));
    assert_eq!(responses[0].response_header.timestamp, now);
    assert_eq!(responses[0].available_sequence_numbers, Some(vec![1]));
    assert_eq!(responses[0].more_notifications, false);
    assert_eq!(responses[0].results, None);
    assert_eq!(responses[0].diagnostic_infos, None);
    assert_eq!(carried(&responses[0].notification_message), vec![(100, 0)]);
    assert_eq!(subscriptions.subscriptions[1].state, SubscriptionState::Late);
    // two publish requests, two messages
    set(&mut space, 0, 5);
    subscriptions.enqueue_publish_request(publish_request(72, None));
    subscriptions.enqueue_publish_request(publish_request(73, None));
    let responses = subscriptions.tick(&space, &now, &[]);
    assert_eq!(handles(&responses), vec![(72, 1), (73, 2)]);
    assert_eq!(carried(&responses[0].notification_message), vec![(100, 5)]);
    assert_eq!(carried(&responses[1].notification_message), vec![(200, 0)]);
    assert_eq!(responses[0].available_sequence_numbers, Some(vec![1, 2]));
    assert_eq!(responses[1].available_sequence_numbers, Some(vec![1]));
    assert_eq!(subscriptions.publish_request_queue.len(), 0);
}

#[test]
fn acknowledgements_are_worked_off_when_the_request_arrives() {
    let mut space = space(1);
    let mut subscriptions = Subscriptions::new();
    let mut first = subscription(1, 100, 10, 0);
    first.monitored_items.push(item(1, 0, 100));
    subscriptions.insert(first);
    let now = DateTime::from_ticks(1000);
    subscriptions.enqueue_publish_request(publish_request(1, None));
    assert_eq!(subscriptions.tick(&space, &now, &[]).len(), 1);
    set(&mut space, 0, 1);
    subscriptions.enqueue_publish_request(publish_request(2, Some(vec![])));
    let responses = subscriptions.tick(&space, &now, &[]);
    assert_eq!(responses[0].results, Some(vec![]));
    assert_eq!(responses[0].available_sequence_numbers, Some(vec![1, 2]));
    // acknowledge the first message, the first message again, a message of no subscription
    subscriptions.enqueue_publish_request(publish_request(3, Some(vec![(1, 1), (1, 1), (9, 1), (1, 7)])));
    assert_eq!(subscriptions.subscriptions[0].available_sequence_numbers(), vec![2]);
    set(&mut space, 0, 2);
    let responses = subscriptions.tick(&space, &now, &[]);
    assert_eq!(
        responses[0].results,
        Some(vec![
            StatusCode(GOOD),
            StatusCode(BAD_SEQUENCE_NUMBER_UNKNOWN),
            StatusCode(BAD_SUBSCRIPTION_ID_INVALID),
            StatusCode(BAD_SEQUENCE_NUMBER_UNKNOWN),
        ])
    );
    assert_eq!(responses[0].available_sequence_numbers, Some(vec![2, 3]));
    assert_eq!(
        subscriptions.acknowledge(&SubscriptionAcknowledgement { subscription_id: 1, sequence_number: 3 }),
        StatusCode(GOOD)
    );
}

#[test]
fn republish_by_subscription() {
    let space = space(1);
    let mut subscriptions = Subscriptions::new();
    let mut first = subscription(1, 100, 10, 0);
    first.monitored_items.push(item(1, 0, 100));
    subscriptions.insert(first);
    let now = DateTime::from_ticks(1000);
    subscriptions.enqueue_publish_request(publish_request(1, None));
    let responses = subscriptions.tick(&space, &now, &[]);
    let sent = &responses[0].notification_message;
    assert_eq!(sent.sequence_number, 1);
    assert_eq!(subscriptions.republish(1, 1), Ok(copy_message(sent)));
    assert_eq!(subscriptions.republish(1, 0), Err(StatusCode(BAD_MESSAGE_NOT_AVAILABLE)));
    assert_eq!(subscriptions.republish(1, 2), Err(StatusCode(BAD_MESSAGE_NOT_AVAILABLE)));
    assert_eq!(subscriptions.republish(2, 1), Err(StatusCode(BAD_SUBSCRIPTION_ID_INVALID)));
}

#[test]
fn keep_alive_response_takes_a_publish_request() {
    let space = space(0);
    let mut subscriptions = Subscriptions::new();
    subscriptions.insert(subscription(7, 100, 3, 0));
    let now = DateTime::from_ticks(1000);
    subscriptions.enqueue_publish_request(publish_request(50, None));
    assert_eq!(subscriptions.tick(&space, &now, &[]), vec![]);
    assert_eq!(subscriptions.tick(&space, &now, &[]), vec![]);
    let responses = subscriptions.tick(&space, &now, &[]);
    assert_eq!(handles(&responses), vec![(50, 7)]);
    assert_eq!(responses[0].notification_message.notification_data, None);
    assert_eq!(responses[0].notification_message.sequence_number, 1);
    assert_eq!(responses[0].available_sequence_numbers, Some(vec![]));
    assert_eq!(responses[0].more_notifications, false);
    assert_eq!(subscriptions.publish_request_queue.len(), 0);
}

#[test]
fn subscriptions_are_removed_by_id() {
    let mut subscriptions = Subscriptions::new();
    subscriptions.insert(subscription(1, 1, 1, 0));
    subscriptions.insert(subscription(2, 1, 1, 0));
    assert!(subscriptions.remove(3).is_none());
    assert_eq!(subscriptions.remove(1).unwrap().subscription_id, 1);
    assert!(subscriptions.remove(1).is_none());
    assert_eq!(subscriptions.subscriptions.len(), 1);
    assert_eq!(subscriptions.subscriptions[0].subscription_id, 2);
}

#[test]
fn deadband_flags_reach_the_items() {
    let mut space = space(2);
    let mut request_filter = item(1, 0, 100);
    request_filter.filter.deadband_type = 1;
    let mut other = item(2, 1, 200);
    other.filter.deadband_type = 1;
    let mut first = subscription(1, 100, 10, 0);
    first.monitored_items.push(request_filter);
    first.monitored_items.push(other);
    let mut subscriptions = Subscriptions::new();
    subscriptions.insert(first);
    let now = DateTime::from_ticks(1000);
    subscriptions.enqueue_publish_request(publish_request(1, None));
    assert_eq!(subscriptions.tick(&space, &now, &[]).len(), 1);
    set(&mut space, 0, 1);
    set(&mut space, 1, 1);
    subscriptions.enqueue_publish_request(publish_request(2, None));
    // the first item is told that its value lies within the deadband
    let responses = subscriptions.tick(&space, &now, &[vec![true, false]]);
    assert_eq!(carried(&responses[0].notification_message), vec![(200, 1)]);
}

#[test]
fn extension_object_carries_values() {
    let object = ExtensionObject::from_encodable(NodeId::new_numeric(0, 1), &5u32);
    assert_eq!(
        object.body,
        ExtensionObjectEncoding::ByteString(opcua_server::byte_string::ByteString::from(vec![5, 0, 0, 0]))
    );
    assert_eq!(object.duplicate(), object);
}

fn item_request(number: u32, handle: u32, filter: ExtensionObject) -> MonitoredItemCreateRequest {
    MonitoredItemCreateRequest {
        item_to_monitor: ReadValueId {
            node_id: variable(number),
            attribute_id: ATTRIBUTE_VALUE,
            index_range: UAString::null(),
            data_encoding: QualifiedName::null(),
        },
        monitoring_mode: MonitoringMode::Reporting,
        requested_parameters: MonitoringParameters {
            client_handle: handle,
            sampling_interval: -1,
            filter,
            queue_size: 10,
            discard_oldest: true,
        },
    }
}

#[test]
fn items_are_made_for_nodes_that_exist() {
    let space = space(2);
    let mut subscription = subscription(1, 10, 3, 0);
    let good = subscription.create_monitored_item(
        &space,
        1,
        &item_request(0, 100, ExtensionObject::null()),
    );
    assert_eq!(good.0, 0);
    assert_eq!(subscription.monitored_items.len(), 1);
    assert_eq!(subscription.monitored_items[0].monitored_item_id, 1);
    assert_eq!(subscription.monitored_items[0].client_handle, 100);

    let unknown = subscription.create_monitored_item(
        &space,
        2,
        &item_request(7, 101, ExtensionObject::null()),
    );
    assert_eq!(unknown.0, 0x8034_0000);
    assert_eq!(subscription.monitored_items.len(), 1);

    let other_filter = ExtensionObject {
        node_id: NodeId::new_numeric(0, 727),
        body: ExtensionObjectEncoding::NoBody,
    };
    let refused = subscription.create_monitored_item(&space, 3, &item_request(1, 102, other_filter));
    assert_eq!(refused.0, 0x8045_0000);
    assert_eq!(subscription.monitored_items.len(), 1);

    let second = subscription.create_monitored_item(
        &space,
        4,
        &item_request(1, 103, ExtensionObject::null()),
    );
    assert_eq!(second.0, 0);
    assert_eq!(subscription.monitored_items.len(), 2);
    assert_eq!(subscription.monitored_items[1].monitored_item_id, 4);
}

#[test]
fn an_item_whose_node_is_gone_reports_it() {
    let space = space(1);
    let mut subscription = subscription(1, 10, 3, 0);
    let made = subscription.create_monitored_item(
        &space,
        1,
        &item_request(0, 100, ExtensionObject::null()),
    );
    assert_eq!(made.0, 0);
    // The same item against a space without the node.
    let empty = AddressSpace::new();
    let sampled = subscription.monitored_items[0].sample(&empty);
    assert_eq!(sampled.status.map(|s| s.0), Some(0x8034_0000));
    assert!(sampled.value.is_none());
}
