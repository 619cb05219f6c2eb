//! Monitored items: sampling a value, filtering its changes and queueing
//! the notifications.

use crate::address_space::{AddressSpace, AddressSpaceView};
use crate::basic_types::{ExtensionObjectEncodingView, ExtensionObjectView};
use crate::date_time::DateTime;
use crate::encoding::{BinaryEncoder, DecodingLimits};
use crate::node_id::NodeIdView;
use crate::service_types::double::Double;
use crate::service_types::message_info::ObjectId;
use crate::service_types::monitored_item_messages::{
    alike, DataChangeFilter, DataChangeFilterView, DataChangeTrigger, MonitoredItemCreateRequest,
    MonitoredItemCreateRequestView, MonitoredItemNotification, MonitoredItemNotificationView,
    MonitoringMode, ReadValueId, ReadValueIdView, ATTRIBUTE_VALUE, DEADBAND_NONE,
};
use crate::status_codes::{
    StatusCode, BAD_ATTRIBUTE_ID_INVALID, BAD_DECODING_ERROR, BAD_FILTER_NOT_ALLOWED,
    BAD_NODE_ID_UNKNOWN, GOOD, INFO_OVERFLOW,
};
use crate::variant::{DataValue, DataValueView};
use vstd::prelude::*;

verus! {

/// The shortest time between two samples, in milliseconds.
pub const MIN_SAMPLING_INTERVAL: i64 = 100;

/// Ticks in one millisecond.
pub const TICKS_PER_MILLISECOND: i64 = 10_000;

/// Samples one attribute of one node and queues what it has to report.
#[derive(Debug, PartialEq, Clone)]
pub struct MonitoredItem {
    /// The id of the item within its subscription.
    pub monitored_item_id: u32,
    /// The attribute that the item samples.
    pub item_to_monitor: ReadValueId,
    /// Whether the item samples and reports.
    pub monitoring_mode: MonitoringMode,
    /// The handle by which the client knows the item.
    pub client_handle: u32,
    /// Milliseconds between samples; 0 for the publishing interval, negative for every tick.
    pub sampling_interval: i64,
    /// Which changes the item reports.
    pub filter: DataChangeFilter,
    /// Whether a full queue drops its oldest entry rather than the new one.
    pub discard_oldest: bool,
    /// How many notifications the queue holds; 0 counts as 1.
    pub queue_size: usize,
    /// The notifications not yet published, oldest first.
    pub notification_queue: Vec<MonitoredItemNotification>,
    /// When the item sampled last.
    pub last_sample_time: Option<DateTime>,
    /// The value that the item saw change last.
    pub last_data_value: Option<DataValue>,
}

/// The value that a `MonitoredItem` stands for.
pub struct MonitoredItemView {
    pub monitored_item_id: u32,
    pub item_to_monitor: ReadValueIdView,
    pub monitoring_mode: MonitoringMode,
    pub client_handle: u32,
    pub sampling_interval: i64,
    pub filter: DataChangeFilterView,
    pub discard_oldest: bool,
    pub queue_size: usize,
    pub notification_queue: Seq<MonitoredItemNotificationView>,
    pub last_sample_time: Option<DateTime>,
    pub last_data_value: Option<DataValueView>,
}

impl DeepView for MonitoredItem {
    type V = MonitoredItemView;

    open spec fn deep_view(&self) -> MonitoredItemView {
        MonitoredItemView {
            monitored_item_id: self.monitored_item_id.deep_view(),
            item_to_monitor: self.item_to_monitor.deep_view(),
            monitoring_mode: self.monitoring_mode.deep_view(),
            client_handle: self.client_handle.deep_view(),
            sampling_interval: self.sampling_interval.deep_view(),
            filter: self.filter.deep_view(),
            discard_oldest: self.discard_oldest.deep_view(),
            queue_size: self.queue_size.deep_view(),
            notification_queue: self.notification_queue.deep_view(),
            last_sample_time: self.last_sample_time.deep_view(),
            last_data_value: self.last_data_value.deep_view(),
        }
    }
}

impl View for MonitoredItem {
    type V = MonitoredItemView;

    open spec fn view(&self) -> MonitoredItemView {
        self.deep_view()
    }
}

/// The filter of an item for which the client names none: status and value
/// count, without a deadband.
pub open spec fn default_filter() -> DataChangeFilterView {
    DataChangeFilterView {
        trigger: DataChangeTrigger::StatusValue,
        deadband_type: DEADBAND_NONE,
        deadband_value: Double { bits: 0 },
    }
}

/// The limits within which the filter of an item is decoded.
pub open spec fn filter_limits() -> DecodingLimits {
    DecodingLimits {
        max_string_length: crate::encoding::DEFAULT_MAX_LENGTH,
        max_byte_string_length: crate::encoding::DEFAULT_MAX_LENGTH,
        max_array_length: crate::encoding::DEFAULT_MAX_LENGTH,
    }
}

/// The filter that an extension object of a request stands for: the default
/// filter for the null object; the filter that a data change filter in
/// binary form decodes to; other kinds of filters are not allowed.
pub open spec fn filter_of(filter: ExtensionObjectView) -> Result<DataChangeFilterView, StatusCode> {
    if filter.node_id.is_null() {
        Ok(default_filter())
    } else if filter.node_id == NodeIdView::numeric(
        0,
        ObjectId::DataChangeFilter_Encoding_DefaultBinary.spec_number(),
    ) {
        match filter.body {
            ExtensionObjectEncodingView::ByteString(Some(bytes)) => match DataChangeFilter::parse(
                bytes,
                filter_limits(),
            ) {
                Ok((decoded, _)) => Ok(decoded),
                Err(_) => Err(StatusCode(BAD_DECODING_ERROR)),
            },
            _ => Err(StatusCode(BAD_DECODING_ERROR)),
        }
    } else {
        Err(StatusCode(BAD_FILTER_NOT_ALLOWED))
    }
}

/// The item that a request asks for, with the filter `filter`: nothing
/// sampled and nothing queued.
pub open spec fn fresh_item(
    monitored_item_id: u32,
    request: MonitoredItemCreateRequestView,
    filter: DataChangeFilterView,
) -> MonitoredItemView {
    MonitoredItemView {
        monitored_item_id,
        item_to_monitor: request.item_to_monitor,
        monitoring_mode: request.monitoring_mode,
        client_handle: request.requested_parameters.client_handle,
        sampling_interval: request.requested_parameters.sampling_interval,
        filter,
        discard_oldest: request.requested_parameters.discard_oldest,
        queue_size: request.requested_parameters.queue_size as usize,
        notification_queue: Seq::empty(),
        last_sample_time: None,
        last_data_value: None,
    }
}

/// Whether it is time for an item to sample: always the first time; with a
/// positive interval, when that interval, or the shortest one if that is
/// longer, has passed since the last sample; with the interval 0, when the
/// publishing interval has passed; with a negative interval, always.
pub open spec fn is_due(item: MonitoredItemView, now: DateTime, publishing_interval_elapsed: bool) -> bool {
    match item.last_sample_time {
        None => true,
        Some(last) => if item.sampling_interval > 0 {
            let interval = if item.sampling_interval < MIN_SAMPLING_INTERVAL {
                MIN_SAMPLING_INTERVAL
            } else {
                item.sampling_interval
            };
            now.ticks - last.ticks >= interval * TICKS_PER_MILLISECOND
        } else if item.sampling_interval == 0 {
            publishing_interval_elapsed
        } else {
            true
        },
    }
}

/// What an item samples: the value of its node; for a node that is not in
/// the space a value with the status `BAD_NODE_ID_UNKNOWN`, and for one
/// that has no value a value with the status `BAD_ATTRIBUTE_ID_INVALID`.
pub open spec fn sampled_value(space: AddressSpaceView, item: MonitoredItemView) -> DataValueView {
    match space.find_node(item.item_to_monitor.node_id) {
        None => DataValueView::of_status(StatusCode(BAD_NODE_ID_UNKNOWN)),
        Some(node) => match node.value {
            Some(value) => value,
            None => DataValueView::of_status(StatusCode(BAD_ATTRIBUTE_ID_INVALID)),
        },
    }
}

/// Whether `value` is a change for an item: it is the first value, or the
/// filter does not take it for the same as the last.
pub open spec fn has_changed(item: MonitoredItemView, value: DataValueView, in_band: bool) -> bool {
    match item.last_data_value {
        None => true,
        Some(last) => !alike(item.filter, last, value, in_band),
    }
}

/// How many notifications the queue of an item holds.
pub open spec fn capacity(item: MonitoredItemView) -> nat {
    if item.queue_size == 0 {
        1
    } else {
        item.queue_size as nat
    }
}

/// The same value with the overflow bits set in its status; a missing
/// status counts as good.
pub open spec fn overflowed(value: DataValueView) -> DataValueView {
    DataValueView {
        status: Some(
            StatusCode(
                match value.status {
                    Some(status) => status.0,
                    None => GOOD,
                } | INFO_OVERFLOW,
            ),
        ),
        ..value
    }
}

/// The queue after `notification` arrives. Where there is room, it is
/// added. Where the queue is full, either the oldest entry is dropped and
/// the new one is added with the overflow bits set, or the new one is
/// dropped and the overflow bits are set on the newest entry of the queue.
pub open spec fn enqueued(
    queue: Seq<MonitoredItemNotificationView>,
    notification: MonitoredItemNotificationView,
    capacity: nat,
    discard_oldest: bool,
) -> Seq<MonitoredItemNotificationView> {
    if queue.len() < capacity || queue.len() == 0 {
        queue.push(notification)
    } else if discard_oldest {
        queue.skip(1).push(
            MonitoredItemNotificationView { value: overflowed(notification.value), ..notification },
        )
    } else {
        let last = queue.len() - 1;
        queue.update(
            last,
            MonitoredItemNotificationView { value: overflowed(queue[last].value), ..queue[last] },
        )
    }
}

/// What one tick makes of an item, and whether it reports a notification. A
/// disabled item, an item on another attribute than the value, and an item
/// whose time has not come do nothing. Else the item samples. Where the
/// sample is a change, the item keeps it as its last value, and an item that
/// reports queues a notification with it.
pub open spec fn tick_outcome(
    item: MonitoredItemView,
    space: AddressSpaceView,
    now: DateTime,
    publishing_interval_elapsed: bool,
    in_band: bool,
) -> (bool, MonitoredItemView) {
    if item.monitoring_mode == MonitoringMode::Disabled || item.item_to_monitor.attribute_id
        != ATTRIBUTE_VALUE || !is_due(item, now, publishing_interval_elapsed) {
        (false, item)
    } else {
        let value = sampled_value(space, item);
        let sampled = MonitoredItemView { last_sample_time: Some(now), ..item };
        if !has_changed(item, value, in_band) {
            (false, sampled)
        } else {
            let kept = MonitoredItemView { last_data_value: Some(value), ..sampled };
            if item.monitoring_mode == MonitoringMode::Reporting {
                (
                    true,
                    MonitoredItemView {
                        notification_queue: enqueued(
                            item.notification_queue,
                            MonitoredItemNotificationView { client_handle: item.client_handle, value },
                            capacity(item),
                            item.discard_oldest,
                        ),
                        ..kept
                    },
                )
            } else {
                (false, kept)
            }
        }
    }
}

/// The result of making an item, as a value.
pub open spec fn item_view(result: Result<MonitoredItem, StatusCode>) -> Result<
    MonitoredItemView,
    StatusCode,
> {
    match result {
        Ok(item) => Ok(item@),
        Err(status) => Err(status),
    }
}

impl MonitoredItem {
    /// The item that `request` asks for. Fails with `BAD_DECODING_ERROR`
    /// where the filter of the request cannot be decoded, and with
    /// `BAD_FILTER_NOT_ALLOWED` where it is no data change filter.
    pub fn new(monitored_item_id: u32, request: &MonitoredItemCreateRequest) -> (r: Result<
        MonitoredItem,
        StatusCode,
    >)
        ensures
            item_view(r) == match filter_of(request@.requested_parameters.filter) {
                Ok(filter) => Ok::<MonitoredItemView, StatusCode>(
                    fresh_item(monitored_item_id, request@, filter),
                ),
                Err(status) => Err::<MonitoredItemView, StatusCode>(status),
            },
    {
        let encoded = &request.requested_parameters.filter;
        let filter = if encoded.node_id.is_null() {
            DataChangeFilter {
                trigger: DataChangeTrigger::StatusValue,
                deadband_type: DEADBAND_NONE,
                deadband_value: Double { bits: 0 },
            }
        } else if encoded.node_id == ObjectId::DataChangeFilter_Encoding_DefaultBinary.as_node_id() {
            let limits = DecodingLimits::default();
            match encoded.decode_inner::<DataChangeFilter>(&limits) {
                Ok(filter) => filter,
                Err(_) => {
                    return Err(StatusCode(BAD_DECODING_ERROR));
                },
            }
        } else {
            return Err(StatusCode(BAD_FILTER_NOT_ALLOWED));
        };
        let item = MonitoredItem {
            monitored_item_id,
            item_to_monitor: request.item_to_monitor.clone(),
            monitoring_mode: request.monitoring_mode,
            client_handle: request.requested_parameters.client_handle,
            sampling_interval: request.requested_parameters.sampling_interval,
            filter,
            discard_oldest: request.requested_parameters.discard_oldest,
            queue_size: request.requested_parameters.queue_size as usize,
            notification_queue: Vec::new(),
            last_sample_time: None,
            last_data_value: None,
        };
        assert(item@.notification_queue =~= Seq::empty());
        Ok(item)
    }

    /// Whether it is time for the item to sample.
    pub fn is_due(&self, now: &DateTime, publishing_interval_elapsed: bool) -> (r: bool)
        ensures
            r == is_due(self@, *now, publishing_interval_elapsed),
    {
        match self.last_sample_time {
            None => true,
            Some(last) => {
                if self.sampling_interval > 0 {
                    let interval: i128 = if self.sampling_interval < MIN_SAMPLING_INTERVAL {
                        MIN_SAMPLING_INTERVAL as i128
                    } else {
                        self.sampling_interval as i128
                    };
                    let elapsed: i128 = now.ticks as i128 - last.ticks as i128;
                    assert(interval * 10_000 <= 0x7fff_ffff_ffff_ffff * 10_000) by (nonlinear_arith)
                        requires
                            0 <= interval <= 0x7fff_ffff_ffff_ffff,
                    ;
                    elapsed >= interval * (TICKS_PER_MILLISECOND as i128)
                } else if self.sampling_interval == 0 {
                    publishing_interval_elapsed
                } else {
                    true
                }
            },
        }
    }

    /// What the item samples from `address_space`.
    pub fn sample(&self, address_space: &AddressSpace) -> (r: DataValue)
        ensures
            r@ == sampled_value(address_space@, self@),
    {
        match address_space.find_node(&self.item_to_monitor.node_id) {
            None => DataValue::from_status(StatusCode(BAD_NODE_ID_UNKNOWN)),
            Some(node) => match node.value() {
                Some(value) => value.clone(),
                None => DataValue::from_status(StatusCode(BAD_ATTRIBUTE_ID_INVALID)),
            },
        }
    }

    /// Takes `notification` into the queue.
    pub fn enqueue_notification(&mut self, notification: MonitoredItemNotification)
        ensures
            final(self)@ == (MonitoredItemView {
                notification_queue: enqueued(
                    old(self)@.notification_queue,
                    notification@,
                    capacity(old(self)@),
                    old(self)@.discard_oldest,
                ),
                ..old(self)@
            }),
    {
        let ghost queue = self@.notification_queue;
        let capacity = if self.queue_size == 0 {
            1
        } else {
            self.queue_size
        };
        let len = self.notification_queue.len();
        if len < capacity || len == 0 {
            self.notification_queue.push(notification);
            assert(self@.notification_queue =~= queue.push(notification@));
        } else if self.discard_oldest {
            let _ = self.notification_queue.remove(0);
            let mut marked = notification;
            marked.value.status = Some(status_with_overflow(marked.value.status));
            self.notification_queue.push(marked);
            assert(self@.notification_queue =~= queue.skip(1).push(marked@));
        } else {
            let mut marked = self.notification_queue[len - 1].clone();
            assert(marked@ == queue[len - 1]);
            marked.value.status = Some(status_with_overflow(marked.value.status));
            self.notification_queue.set(len - 1, marked);
            assert(self@.notification_queue =~= queue.update(len - 1, marked@));
        }
    }

    /// Lets the item do what is due at the time `now`. Returns whether the
    /// item reports a notification. `in_band` says whether the value of
    /// the node and the last value of the item are numbers that differ by
    /// no more than the deadband of the filter.
    pub fn tick(
        &mut self,
        address_space: &AddressSpace,
        now: &DateTime,
        publishing_interval_elapsed: bool,
        in_band: bool,
    ) -> (r: bool)
        ensures
            (r, final(self)@) == tick_outcome(
                old(self)@,
                address_space@,
                *now,
                publishing_interval_elapsed,
                in_band,
            ),
    {
        if self.monitoring_mode == MonitoringMode::Disabled {
            return false;
        }
        if self.item_to_monitor.attribute_id != ATTRIBUTE_VALUE {
            return false;
        }
        if !self.is_due(now, publishing_interval_elapsed) {
            return false;
        }
        let value = self.sample(address_space);
        let changed = match &self.last_data_value {
            None => true,
            Some(last) => !self.filter.compare(last, &value, in_band),
        };
        self.last_sample_time = Some(*now);
        if !changed {
            return false;
        }
        self.last_data_value = Some(value.clone());
        if self.monitoring_mode == MonitoringMode::Reporting {
            self.enqueue_notification(
                MonitoredItemNotification { client_handle: self.client_handle, value },
            );
            true
        } else {
            false
        }
    }
}

/// The status with the overflow bits set; a missing status counts as good.
pub fn status_with_overflow(status: Option<StatusCode>) -> (r: StatusCode)
    ensures
        r.0 == match status {
            Some(status) => status.0,
            None => GOOD,
        } | INFO_OVERFLOW,
{
    match status {
        Some(status) => status.with_overflow(),
        None => StatusCode(GOOD).with_overflow(),
    }
}

/// The first tick of a fresh item that reports always reports a
/// notification. A tick that follows while the value has not changed does
/// not. A tick that is due after a change of the value that the filter does
/// not take for the same does.
pub proof fn lemma_ticks_report_changes(
    item: MonitoredItemView,
    space: AddressSpaceView,
    changed_space: AddressSpaceView,
    first_now: DateTime,
    first_elapsed: bool,
    first_in_band: bool,
    second_now: DateTime,
    second_elapsed: bool,
    second_in_band: bool,
    third_now: DateTime,
    third_elapsed: bool,
    third_in_band: bool,
)
    requires
        item.monitoring_mode == MonitoringMode::Reporting,
        item.item_to_monitor.attribute_id == ATTRIBUTE_VALUE,
        item.last_sample_time is None,
        item.last_data_value is None,
        !alike(
            item.filter,
            sampled_value(space, item),
            sampled_value(changed_space, item),
            third_in_band,
        ),
    ensures
        ({
            let first = tick_outcome(item, space, first_now, first_elapsed, first_in_band);
            let second = tick_outcome(first.1, space, second_now, second_elapsed, second_in_band);
            let third = tick_outcome(
                second.1,
                changed_space,
                third_now,
                third_elapsed,
                third_in_band,
            );
            &&& first.0
            &&& first.1.notification_queue.len() == item.notification_queue.len() + 1
                || item.notification_queue.len() >= capacity(item)
            &&& !second.0
            &&& second.1.notification_queue == first.1.notification_queue
            &&& is_due(second.1, third_now, third_elapsed) ==> third.0
        }),
{
}

/// A notification that arrives at a full queue from which the oldest is
/// dropped takes the place behind the others, which move up by one, and
/// carries the overflow bits.
pub proof fn lemma_full_queue_drops_oldest(
    queue: Seq<MonitoredItemNotificationView>,
    notification: MonitoredItemNotificationView,
    capacity: nat,
)
    requires
        0 < capacity <= queue.len(),
    ensures
        ({
            let after = enqueued(queue, notification, capacity, true);
            &&& after.len() == queue.len()
            &&& forall|i: int| 0 <= i < queue.len() - 1 ==> after[i] == queue[i + 1]
            &&& after.last().client_handle == notification.client_handle
            &&& after.last().value == overflowed(notification.value)
            &&& after.last().value.status.unwrap().0 & INFO_OVERFLOW == INFO_OVERFLOW
        }),
{
    let status = match notification.value.status {
        Some(status) => status.0,
        None => GOOD,
    };
    assert((status | 0x480) & 0x480 == 0x480) by (bit_vector);
}

/// A notification that arrives at a full queue from which the newest is
/// dropped leaves the queue as it is, but for the overflow bits on its
/// newest entry.
pub proof fn lemma_full_queue_drops_newest(
    queue: Seq<MonitoredItemNotificationView>,
    notification: MonitoredItemNotificationView,
    capacity: nat,
)
    requires
        0 < capacity <= queue.len(),
    ensures
        ({
            let after = enqueued(queue, notification, capacity, false);
            &&& after.len() == queue.len()
            &&& forall|i: int| 0 <= i < queue.len() - 1 ==> after[i] == queue[i]
            &&& after.last().client_handle == queue.last().client_handle
            &&& after.last().value == overflowed(queue.last().value)
        }),
{
}

} // verus!
