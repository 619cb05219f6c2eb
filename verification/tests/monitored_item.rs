use opcua_server::address_space::{AddressSpace, Node};
use opcua_server::basic_types::{ExtensionObject, ExtensionObjectEncoding, QualifiedName};
use opcua_server::byte_string::ByteString;
use opcua_server::date_time::DateTime;
use opcua_server::encoding::{BinaryEncoder, DecodingLimits, EncodingError, Reader};
use opcua_server::node_id::NodeId;
use opcua_server::node_ids::ReferenceTypeId;
use opcua_server::service_types::double::{Double, Float};
use opcua_server::service_types::message_info::ObjectId;
use opcua_server::service_types::monitored_item_messages::{
    DataChangeFilter, DataChangeTrigger, MonitoredItemCreateRequest, MonitoredItemNotification,
    MonitoringMode, MonitoringParameters, ReadValueId, ATTRIBUTE_VALUE, DEADBAND_ABSOLUTE,
    DEADBAND_NONE,
};
use opcua_server::status_codes::{
    StatusCode, BAD_ATTRIBUTE_ID_INVALID, BAD_DECODING_ERROR, BAD_FILTER_NOT_ALLOWED,
    BAD_NODE_ID_UNKNOWN, GOOD,
};
use opcua_server::string::UAString;
use opcua_server::subscriptions::monitored_item::{status_with_overflow, MonitoredItem};
use opcua_server::variant::{same_variant, DataValue, Variant};

fn test_var_node_id() -> NodeId {
    NodeId::new_numeric(1, 1)
}

fn objects_folder_id() -> NodeId {
    NodeId::new_numeric(0, 85)
}

fn make_address_space() -> AddressSpace {
    let mut address_space = AddressSpace::new();
    address_space
        .add_variable(
            Node::new_variable(&NodeId::new_numeric(1, 1), "test", DataValue::new(Variant::UInt32(0))),
            &objects_folder_id(),
            ReferenceTypeId::Organizes,
        )
        .unwrap();
    address_space
}

fn encoded_filter(trigger: DataChangeTrigger) -> ExtensionObject {
    // Encode a filter to an extension object
    ExtensionObject::from_encodable(
        ObjectId::DataChangeFilter_Encoding_DefaultBinary.as_node_id(),
        &DataChangeFilter {
            trigger,
            deadband_type: 0,
            deadband_value: Double::from_bits(0f64.to_bits()),
        },
    )
}

fn make_create_request(sampling_interval: i64, queue_size: u32) -> MonitoredItemCreateRequest {
    let filter = encoded_filter(DataChangeTrigger::StatusValueTimestamp);
    MonitoredItemCreateRequest {
        item_to_monitor: ReadValueId {
            node_id: test_var_node_id(),
            attribute_id: ATTRIBUTE_VALUE,
            index_range: UAString::null(),
            data_encoding: QualifiedName::null(),
        },
        monitoring_mode: MonitoringMode::Reporting,
        requested_parameters: MonitoringParameters {
            client_handle: 999,
            sampling_interval,
            filter,
            queue_size,
            discard_oldest: true,
        },
    }
}

fn set_value(address_space: &mut AddressSpace, value: u32) {
    assert!(address_space.set_variable_value(&test_var_node_id(), DataValue::new(Variant::UInt32(value))));
}

#[test]
fn data_change_filter_test() {
    let mut filter = DataChangeFilter {
        trigger: DataChangeTrigger::Status,
        deadband_type: 0,
        deadband_value: Double::from_bits(0f64.to_bits()),
    };

    let mut v1 = DataValue {
        value: None,
        status: None,
        source_timestamp: None,
        source_picoseconds: None,
        server_timestamp: None,
        server_picoseconds: None,
    };

    let mut v2 = DataValue {
        value: None,
        status: None,
        source_timestamp: None,
        source_picoseconds: None,
        server_timestamp: None,
        server_picoseconds: None,
    };

    assert_eq!(filter.compare(&v1, &v2, false), true);

    // Change v1 status
    v1.status = Some(StatusCode(GOOD));
    assert_eq!(filter.compare(&v1, &v2, false), false);

    // Change v2 status
    v2.status = Some(StatusCode(GOOD));
    assert_eq!(filter.compare(&v1, &v2, false), true);

    // Change value - but since trigger is status, this should not matter
    v1.value = Some(Variant::Boolean(true));
    assert_eq!(filter.compare(&v1, &v2, false), true);

    // Change trigger to status-value and change should matter
    filter.trigger = DataChangeTrigger::StatusValue;
    assert_eq!(filter.compare(&v1, &v2, false), false);

    // Now values are the same
    v2.value = Some(Variant::Boolean(true));
    assert_eq!(filter.compare(&v1, &v2, false), true);

    // And for status-value-timestamp
    filter.trigger = DataChangeTrigger::StatusValueTimestamp;
    assert_eq!(filter.compare(&v1, &v2, false), true);

    // Change timestamps to differ
    let now = DateTime::now();
    v1.server_timestamp = Some(now.clone());
    assert_eq!(filter.compare(&v1, &v2, false), false);
}

#[test]
fn monitored_item_data_change_filter() {
    // create an address space
    let mut address_space = make_address_space();

    // Create request should monitor attribute of variable, e.g. value
    // Sample interval is negative so it will always test on repeated calls
    let mut monitored_item = MonitoredItem::new(1, &make_create_request(-1, 5)).unwrap();

    let now = DateTime::now();

    assert_eq!(monitored_item.notification_queue.len(), 0);

    // Expect first call to always succeed
    assert_eq!(monitored_item.tick(&address_space, &now, true, false), true);

    // Expect one item in its queue
    assert_eq!(monitored_item.notification_queue.len(), 1);

    // Expect false on next tick, with the same value
    assert_eq!(monitored_item.tick(&address_space, &now, true, false), false);
    assert_eq!(monitored_item.notification_queue.len(), 1);

    // adjust variable value
    match address_space.find_node(&test_var_node_id()).unwrap().value() {
        Some(value) => {
            let mut value = value.clone();
            value.value = Some(Variant::UInt32(1));
            assert!(address_space.set_variable_value(&test_var_node_id(), value));
        }
        None => panic!("Expected a variable, didn't get one!!"),
    }

    assert_eq!(monitored_item.tick(&address_space, &now, true, false), true);
    assert_eq!(monitored_item.notification_queue.len(), 2);
}

#[test]
fn monitored_item_event_filter() {}

#[test]
fn monitored_aggregate_filter() {}

#[test]
fn source_timestamp_counts_for_the_timestamp_trigger() {
    let filter = DataChangeFilter {
        trigger: DataChangeTrigger::StatusValueTimestamp,
        deadband_type: DEADBAND_NONE,
        deadband_value: Double::from_bits(0),
    };
    let v1 = DataValue::new(Variant::Int32(1));
    let mut v2 = v1.clone();
    assert!(filter.compare(&v1, &v2, false));
    v2.source_timestamp = Some(DateTime::from_ticks(5));
    assert!(!filter.compare(&v1, &v2, false));
    v2.source_timestamp = None;
    v2.source_picoseconds = Some(3);
    assert!(filter.compare(&v1, &v2, false));
}

#[test]
fn deadband_holds_values_together() {
    let mut filter = DataChangeFilter {
        trigger: DataChangeTrigger::StatusValue,
        deadband_type: DEADBAND_ABSOLUTE,
        deadband_value: Double::from_bits(2.0f64.to_bits()),
    };
    let v1 = DataValue::new(Variant::Double(Double::from_bits(1.0f64.to_bits())));
    let v2 = DataValue::new(Variant::Double(Double::from_bits(2.5f64.to_bits())));
    assert!(filter.compare(&v1, &v2, true));
    assert!(!filter.compare(&v1, &v2, false));
    assert!(filter.compare(&v1, &v1, false));
    // without a deadband the band does not count
    filter.deadband_type = DEADBAND_NONE;
    assert!(!filter.compare(&v1, &v2, true));
}

#[test]
fn data_change_filter_is_trigger_type_and_value() {
    let filter = DataChangeFilter {
        trigger: DataChangeTrigger::StatusValueTimestamp,
        deadband_type: 1,
        deadband_value: Double::from_bits(0x0102030405060708),
    };
    let mut bytes = Vec::new();
    assert_eq!(filter.encode(&mut bytes), Ok(16));
    assert_eq!(filter.byte_len(), 16);
    assert_eq!(bytes, vec![2, 0, 0, 0, 1, 0, 0, 0, 8, 7, 6, 5, 4, 3, 2, 1]);
    let limits = DecodingLimits::default();
    let mut reader = Reader::new(&bytes);
    assert_eq!(DataChangeFilter::decode(&mut reader, &limits), Ok(filter));
    for cut in 0..bytes.len() {
        let mut reader = Reader::new(&bytes[..cut]);
        assert_eq!(DataChangeFilter::decode(&mut reader, &limits), Err(EncodingError::UnexpectedEof));
    }
    bytes[0] = 3;
    let mut reader = Reader::new(&bytes);
    assert_eq!(DataChangeFilter::decode(&mut reader, &limits), Err(EncodingError::InvalidEncoding));
    let mut trigger = Vec::new();
    assert_eq!(DataChangeTrigger::Status.encode(&mut trigger), Ok(4));
    assert_eq!(DataChangeTrigger::StatusValue.byte_len(), 4);
    assert_eq!(trigger, vec![0, 0, 0, 0]);
}

#[test]
fn floats_are_their_bits() {
    let mut bytes = Vec::new();
    assert_eq!(Float::from_bits(1.5f32.to_bits()).encode(&mut bytes), Ok(4));
    assert_eq!(bytes, 1.5f32.to_le_bytes().to_vec());
    let limits = DecodingLimits::default();
    let mut reader = Reader::new(&bytes);
    let float = Float::decode(&mut reader, &limits).unwrap();
    assert_eq!(f32::from_bits(float.to_bits()), 1.5);
    assert_eq!(Float::from_bits(7).byte_len(), 4);
}

#[test]
fn extension_object_carries_an_encodable() {
    let object = encoded_filter(DataChangeTrigger::StatusValue);
    assert_eq!(object.node_id, NodeId::new_numeric(0, 724));
    assert_eq!(
        object.body,
        ExtensionObjectEncoding::ByteString(ByteString::from(vec![
            1, 0, 0, 0, 0, 0, 0, 0, 0, 0, 0, 0, 0, 0, 0, 0
        ]))
    );
    let limits = DecodingLimits::default();
    assert_eq!(
        object.decode_inner::<DataChangeFilter>(&limits),
        Ok(DataChangeFilter {
            trigger: DataChangeTrigger::StatusValue,
            deadband_type: 0,
            deadband_value: Double::from_bits(0),
        })
    );
    // what follows the value is left aside
    assert_eq!(object.decode_inner::<u32>(&limits), Ok(1));
    assert_eq!(ExtensionObject::null().decode_inner::<u32>(&limits), Err(EncodingError::InvalidEncoding));
    let xml = ExtensionObject {
        node_id: NodeId::null(),
        body: ExtensionObjectEncoding::XmlElement(UAString::from("x")),
    };
    assert_eq!(xml.decode_inner::<u8>(&limits), Err(EncodingError::InvalidEncoding));
    let null_bytes = ExtensionObject {
        node_id: NodeId::null(),
        body: ExtensionObjectEncoding::ByteString(ByteString::null()),
    };
    assert_eq!(null_bytes.decode_inner::<u8>(&limits), Err(EncodingError::InvalidEncoding));
    assert!(ExtensionObject::null().is_null());
    assert!(!object.is_null());
}

#[test]
fn new_item_takes_the_request() {
    let item = MonitoredItem::new(7, &make_create_request(250, 5)).unwrap();
    assert_eq!(item.monitored_item_id, 7);
    assert_eq!(item.client_handle, 999);
    assert_eq!(item.sampling_interval, 250);
    assert_eq!(item.queue_size, 5);
    assert_eq!(item.discard_oldest, true);
    assert_eq!(item.monitoring_mode, MonitoringMode::Reporting);
    assert_eq!(item.filter.trigger, DataChangeTrigger::StatusValueTimestamp);
    assert_eq!(item.item_to_monitor.node_id, test_var_node_id());
    assert_eq!(item.last_sample_time, None);
    assert_eq!(item.last_data_value, None);
}

#[test]
fn new_item_judges_the_filter() {
    let mut request = make_create_request(0, 1);
    request.requested_parameters.filter = ExtensionObject::null();
    let item = MonitoredItem::new(1, &request).unwrap();
    assert_eq!(
        item.filter,
        DataChangeFilter {
            trigger: DataChangeTrigger::StatusValue,
            deadband_type: DEADBAND_NONE,
            deadband_value: Double::from_bits(0),
        }
    );
    request.requested_parameters.filter = ExtensionObject {
        node_id: NodeId::new_numeric(0, 724),
        body: ExtensionObjectEncoding::ByteString(ByteString::from(vec![1, 0, 0])),
    };
    assert_eq!(MonitoredItem::new(1, &request), Err(StatusCode(BAD_DECODING_ERROR)));
    request.requested_parameters.filter = ExtensionObject {
        node_id: NodeId::new_numeric(0, 724),
        body: ExtensionObjectEncoding::NoBody,
    };
    assert_eq!(MonitoredItem::new(1, &request), Err(StatusCode(BAD_DECODING_ERROR)));
    request.requested_parameters.filter = ExtensionObject {
        node_id: NodeId::new_numeric(0, 725),
        body: ExtensionObjectEncoding::NoBody,
    };
    assert_eq!(MonitoredItem::new(1, &request), Err(StatusCode(BAD_FILTER_NOT_ALLOWED)));
}

#[test]
fn disabled_and_other_attributes_do_nothing() {
    let address_space = make_address_space();
    let now = DateTime::from_ticks(1);
    let mut request = make_create_request(-1, 5);
    request.monitoring_mode = MonitoringMode::Disabled;
    let mut item = MonitoredItem::new(1, &request).unwrap();
    let before = item.clone();
    assert!(!item.tick(&address_space, &now, true, false));
    assert_eq!(item, before);
    let mut request = make_create_request(-1, 5);
    request.item_to_monitor.attribute_id = 1;
    let mut item = MonitoredItem::new(1, &request).unwrap();
    let before = item.clone();
    assert!(!item.tick(&address_space, &now, true, false));
    assert_eq!(item, before);
}

#[test]
fn sampling_mode_keeps_the_value_silently() {
    let mut address_space = make_address_space();
    let now = DateTime::from_ticks(1);
    let mut request = make_create_request(-1, 5);
    request.monitoring_mode = MonitoringMode::Sampling;
    let mut item = MonitoredItem::new(1, &request).unwrap();
    assert!(!item.tick(&address_space, &now, true, false));
    assert_eq!(item.notification_queue.len(), 0);
    assert_eq!(item.last_data_value, Some(DataValue::new(Variant::UInt32(0))));
    assert_eq!(item.last_sample_time, Some(now));
    set_value(&mut address_space, 4);
    assert!(!item.tick(&address_space, &now, true, false));
    assert_eq!(item.last_data_value, Some(DataValue::new(Variant::UInt32(4))));
}

#[test]
fn sampling_follows_the_interval() {
    let mut address_space = make_address_space();
    let start = DateTime::from_ticks(1_000_000);
    // 250 ms are 2 500 000 ticks
    let mut item = MonitoredItem::new(1, &make_create_request(250, 5)).unwrap();
    assert!(item.is_due(&start, false));
    assert!(item.tick(&address_space, &start, false, false));
    set_value(&mut address_space, 1);
    let early = DateTime::from_ticks(1_000_000 + 2_499_999);
    assert!(!item.is_due(&early, true));
    assert!(!item.tick(&address_space, &early, true, false));
    assert_eq!(item.last_sample_time, Some(start));
    let due = DateTime::from_ticks(1_000_000 + 2_500_000);
    assert!(item.is_due(&due, false));
    assert!(item.tick(&address_space, &due, false, false));
    assert_eq!(item.last_sample_time, Some(due));
    // an interval below the shortest counts as the shortest: 100 ms
    let mut item = MonitoredItem::new(1, &make_create_request(1, 5)).unwrap();
    assert!(item.tick(&address_space, &start, false, false));
    assert!(!item.is_due(&DateTime::from_ticks(1_000_000 + 999_999), true));
    assert!(item.is_due(&DateTime::from_ticks(1_000_000 + 1_000_000), false));
    // the interval 0 waits for the publishing interval
    let mut item = MonitoredItem::new(1, &make_create_request(0, 5)).unwrap();
    assert!(item.tick(&address_space, &start, false, false));
    assert!(!item.is_due(&due, false));
    assert!(item.is_due(&start, true));
    // times far apart do not overflow
    let mut item = MonitoredItem::new(1, &make_create_request(i64::MAX, 5)).unwrap();
    assert!(item.tick(&address_space, &DateTime::from_ticks(i64::MIN), false, false));
    assert!(!item.is_due(&DateTime::from_ticks(i64::MAX), false));
}

#[test]
fn missing_nodes_and_values_are_reported_by_their_status() {
    let address_space = make_address_space();
    let now = DateTime::from_ticks(1);
    let mut request = make_create_request(-1, 5);
    request.item_to_monitor.node_id = NodeId::new_numeric(1, 404);
    let mut item = MonitoredItem::new(1, &request).unwrap();
    assert!(item.tick(&address_space, &now, true, false));
    assert_eq!(
        item.notification_queue,
        vec![MonitoredItemNotification {
            client_handle: 999,
            value: DataValue::from_status(StatusCode(BAD_NODE_ID_UNKNOWN)),
        }]
    );
    assert!(!item.tick(&address_space, &now, true, false));
    request.item_to_monitor.node_id = objects_folder_id();
    let item = MonitoredItem::new(1, &request).unwrap();
    assert_eq!(item.sample(&address_space), DataValue::from_status(StatusCode(BAD_ATTRIBUTE_ID_INVALID)));
}

fn queued_values(item: &MonitoredItem) -> Vec<(u32, Option<u32>)> {
    item.notification_queue
        .iter()
        .map(|n| {
            let value = match n.value.value {
                Some(Variant::UInt32(v)) => v,
                _ => panic!("another value was queued"),
            };
            assert_eq!(n.client_handle, 999);
            (value, n.value.status.map(|s| s.bits()))
        })
        .collect()
}

#[test]
fn full_queue_drops_the_oldest_and_marks_the_new_entry() {
    let mut address_space = make_address_space();
    let now = DateTime::from_ticks(1);
    let mut item = MonitoredItem::new(1, &make_create_request(-1, 2)).unwrap();
    for value in 0..4 {
        set_value(&mut address_space, value);
        assert!(item.tick(&address_space, &now, true, false));
    }
    assert_eq!(queued_values(&item), vec![(2, Some(0x480)), (3, Some(0x480))]);
    let mut item = MonitoredItem::new(1, &make_create_request(-1, 3)).unwrap();
    for value in 10..14 {
        set_value(&mut address_space, value);
        assert!(item.tick(&address_space, &now, true, false));
    }
    assert_eq!(queued_values(&item), vec![(11, None), (12, None), (13, Some(0x480))]);
}

#[test]
fn full_queue_drops_the_newest_and_marks_the_last_entry() {
    let mut address_space = make_address_space();
    let now = DateTime::from_ticks(1);
    let mut request = make_create_request(-1, 2);
    request.requested_parameters.discard_oldest = false;
    let mut item = MonitoredItem::new(1, &request).unwrap();
    for value in 20..24 {
        set_value(&mut address_space, value);
        assert!(item.tick(&address_space, &now, true, false));
    }
    assert_eq!(queued_values(&item), vec![(20, None), (21, Some(0x480))]);
    assert_eq!(item.last_data_value, Some(DataValue::new(Variant::UInt32(23))));
}

#[test]
fn queue_size_zero_holds_one() {
    let mut address_space = make_address_space();
    let now = DateTime::from_ticks(1);
    let mut item = MonitoredItem::new(1, &make_create_request(-1, 0)).unwrap();
    for value in 30..33 {
        set_value(&mut address_space, value);
        assert!(item.tick(&address_space, &now, true, false));
    }
    assert_eq!(queued_values(&item), vec![(32, Some(0x480))]);
}

#[test]
fn overflow_bits_are_added_to_the_status() {
    assert_eq!(status_with_overflow(None), StatusCode(0x480));
    assert_eq!(status_with_overflow(Some(StatusCode(0x8034_0000))), StatusCode(0x8034_0480));
    assert_eq!(status_with_overflow(Some(StatusCode(0x480))), StatusCode(0x480));
}

#[test]
fn values_are_set_on_variables_alone() {
    let mut address_space = make_address_space();
    let stamp = address_space.last_modified();
    assert!(address_space.set_variable_value(&test_var_node_id(), DataValue::new(Variant::Boolean(true))));
    assert_eq!(
        address_space.find_node(&test_var_node_id()).unwrap().value(),
        &Some(DataValue::new(Variant::Boolean(true)))
    );
    assert!(!address_space.set_variable_value(&objects_folder_id(), DataValue::new(Variant::Empty)));
    assert_eq!(address_space.find_node(&objects_folder_id()).unwrap().value(), &None);
    assert!(!address_space.set_variable_value(&NodeId::new_numeric(9, 9), DataValue::new(Variant::Empty)));
    assert_eq!(address_space.last_modified(), stamp);
}

#[test]
fn variants_compare_by_kind_and_value() {
    assert_eq!(Variant::Int32(1), Variant::Int32(1));
    assert_ne!(Variant::Int32(1), Variant::UInt32(1));
    assert_ne!(Variant::Empty, Variant::Boolean(false));
    assert_eq!(
        Variant::String(UAString::from("a")).clone(),
        Variant::String(UAString::from("a"))
    );
    assert_ne!(Variant::ByteString(ByteString::null()), Variant::ByteString(ByteString::from(vec![])));
    assert_eq!(
        Variant::Double(Double::from_bits(f64::NAN.to_bits())),
        Variant::Double(Double::from_bits(f64::NAN.to_bits()))
    );
    assert!(same_variant(&None, &None));
    assert!(!same_variant(&None, &Some(Variant::Empty)));
    assert!(same_variant(&Some(Variant::Byte(1)), &Some(Variant::Byte(1))));
}
