//! The messages and records of monitored items.

use crate::basic_types::{
    ExtensionObject, ExtensionObjectView, QualifiedName, QualifiedNameView,
};
use crate::diagnostic_info::{DiagnosticInfo, DiagnosticInfoView};
use crate::encoding::{
    byte_len_array, get, put, put_last, BinaryEncoder, DecodingLimits, EncodingError, Parsed,
    Reader,
};
use crate::service_types::message_info::{MessageInfo, ObjectId};
use crate::service_types::request_header::{RequestHeader, RequestHeaderView};
use crate::node_id::{NodeId, NodeIdView};
use crate::service_types::double::Double;
use crate::string::UAString;
use crate::date_time::DateTime;
use crate::variant::{same_variant, DataValue, DataValueView, VariantView};
use vstd::prelude::*;

verus! {

/// Which changes of a value a monitored item reports.
#[derive(Clone, Copy, Debug, PartialEq, Eq, Hash, Structural)]
pub enum DataChangeTrigger {
    /// A change of the status.
    Status,
    /// A change of the status or of the value.
    StatusValue,
    /// A change of the status, of the value or of a timestamp.
    StatusValueTimestamp,
}

impl DeepView for DataChangeTrigger {
    type V = DataChangeTrigger;

    open spec fn deep_view(&self) -> DataChangeTrigger {
        *self
    }
}

impl DataChangeTrigger {
    /// The number that stands for the trigger.
    pub open spec fn spec_number(self) -> u32 {
        match self {
            DataChangeTrigger::Status => 0,
            DataChangeTrigger::StatusValue => 1,
            DataChangeTrigger::StatusValueTimestamp => 2,
        }
    }

    /// The trigger that `number` stands for, where it stands for one.
    pub open spec fn of_number(number: u32) -> Option<DataChangeTrigger> {
        if number == 0 {
            Some(DataChangeTrigger::Status)
        } else if number == 1 {
            Some(DataChangeTrigger::StatusValue)
        } else if number == 2 {
            Some(DataChangeTrigger::StatusValueTimestamp)
        } else {
            None
        }
    }
}

/// A trigger is its number as a 32-bit unsigned integer; a number that
/// stands for no trigger is invalid.
impl BinaryEncoder for DataChangeTrigger {
    open spec fn wire(v: DataChangeTrigger) -> Seq<u8> {
        u32::wire(v.spec_number())
    }

    open spec fn parse(bytes: Seq<u8>, limits: DecodingLimits) -> Parsed<DataChangeTrigger> {
        match u32::parse(bytes, limits) {
            Err(e) => Err(e),
            Ok((number, n)) => match Self::of_number(number) {
                Some(trigger) => Ok((trigger, n)),
                None => Err(EncodingError::InvalidEncoding),
            },
        }
    }

    open spec fn encodable(v: DataChangeTrigger) -> bool {
        true
    }

    open spec fn within(v: DataChangeTrigger, limits: DecodingLimits) -> bool {
        true
    }

    proof fn lemma_parse_wire(v: DataChangeTrigger, rest: Seq<u8>, limits: DecodingLimits) {
        u32::lemma_parse_wire(v.spec_number(), rest, limits);
    }

    proof fn lemma_parse_truncated(v: DataChangeTrigger, k: int, limits: DecodingLimits) {
        u32::lemma_parse_truncated(v.spec_number(), k, limits);
    }

    proof fn lemma_parse_bound(bytes: Seq<u8>, limits: DecodingLimits) {
    }

    fn byte_len(&self) -> (n: usize) {
        proof {
            vstd::bytes::lemma_auto_spec_u32_to_from_le_bytes();
        }
        4
    }

    fn encode(&self, stream: &mut Vec<u8>) -> (r: Result<usize, EncodingError>) {
        let number: u32 = match self {
            DataChangeTrigger::Status => 0,
            DataChangeTrigger::StatusValue => 1,
            DataChangeTrigger::StatusValueTimestamp => 2,
        };
        number.encode(stream)
    }

    fn decode(stream: &mut Reader, limits: &DecodingLimits) -> (r: Result<Self, EncodingError>) {
        let number = u32::decode(stream, limits)?;
        if number == 0 {
            Ok(DataChangeTrigger::Status)
        } else if number == 1 {
            Ok(DataChangeTrigger::StatusValue)
        } else if number == 2 {
            Ok(DataChangeTrigger::StatusValueTimestamp)
        } else {
            Err(EncodingError::InvalidEncoding)
        }
    }
}

/// No deadband: every change of the value counts.
pub const DEADBAND_NONE: u32 = 0;

/// A deadband given as a difference of values.
pub const DEADBAND_ABSOLUTE: u32 = 1;

/// A deadband given in percent of the range of the variable.
pub const DEADBAND_PERCENT: u32 = 2;

/// The attribute of a node that holds its value.
pub const ATTRIBUTE_VALUE: u32 = 13;

/// Says which changes of a value a monitored item reports.
#[derive(Debug, Copy, Eq, PartialEq, Clone)]
pub struct DataChangeFilter {
    /// Which parts of a value count.
    pub trigger: DataChangeTrigger,
    /// The kind of deadband: none, absolute or percent.
    pub deadband_type: u32,
    /// The width of the deadband.
    pub deadband_value: Double,
}

/// The value that a `DataChangeFilter` stands for.
pub struct DataChangeFilterView {
    pub trigger: DataChangeTrigger,
    pub deadband_type: u32,
    pub deadband_value: Double,
}

impl DeepView for DataChangeFilter {
    type V = DataChangeFilterView;

    open spec fn deep_view(&self) -> DataChangeFilterView {
        DataChangeFilterView {
            trigger: self.trigger.deep_view(),
            deadband_type: self.deadband_type.deep_view(),
            deadband_value: self.deadband_value.deep_view(),
        }
    }
}

impl View for DataChangeFilter {
    type V = DataChangeFilterView;

    open spec fn view(&self) -> DataChangeFilterView {
        self.deep_view()
    }
}

impl DataChangeFilterView {
    /// The fields in the order in which they travel.
    pub open spec fn fields(self) -> (DataChangeTrigger, (u32, Double)) {
        (self.trigger, (self.deadband_type, self.deadband_value))
    }

    /// The value with the given fields.
    pub open spec fn of_fields(t: (DataChangeTrigger, (u32, Double))) -> DataChangeFilterView {
        DataChangeFilterView {
            trigger: t.0,
            deadband_type: t.1.0,
            deadband_value: t.1.1,
        }
    }
}

/// A data change filter is its trigger, the type of its deadband and the value of its deadband.
impl BinaryEncoder for DataChangeFilter {
    open spec fn wire(v: DataChangeFilterView) -> Seq<u8> {
        <(DataChangeTrigger, (u32, Double))>::wire(v.fields())
    }

    open spec fn parse(bytes: Seq<u8>, limits: DecodingLimits) -> Parsed<DataChangeFilterView> {
        match <(DataChangeTrigger, (u32, Double))>::parse(bytes, limits) {
            Err(e) => Err(e),
            Ok((t, n)) => Ok((DataChangeFilterView::of_fields(t), n)),
        }
    }

    open spec fn encodable(v: DataChangeFilterView) -> bool {
        <(DataChangeTrigger, (u32, Double))>::encodable(v.fields())
    }

    open spec fn within(v: DataChangeFilterView, limits: DecodingLimits) -> bool {
        <(DataChangeTrigger, (u32, Double))>::within(v.fields(), limits)
    }

    proof fn lemma_parse_wire(v: DataChangeFilterView, rest: Seq<u8>, limits: DecodingLimits) {
        <(DataChangeTrigger, (u32, Double))>::lemma_parse_wire(v.fields(), rest, limits);
    }

    proof fn lemma_parse_truncated(v: DataChangeFilterView, k: int, limits: DecodingLimits) {
        <(DataChangeTrigger, (u32, Double))>::lemma_parse_truncated(v.fields(), k, limits);
    }

    proof fn lemma_parse_bound(bytes: Seq<u8>, limits: DecodingLimits) {
        <(DataChangeTrigger, (u32, Double))>::lemma_parse_bound(bytes, limits);
    }

    fn byte_len(&self) -> (n: usize) {
        let mut size: usize = 0;
        size += self.trigger.byte_len();
        size += self.deadband_type.byte_len();
        size += self.deadband_value.byte_len();
        size
    }

    fn encode(&self, stream: &mut Vec<u8>) -> (r: Result<usize, EncodingError>) {
        let ghost start = stream@;
        let ghost total = Self::wire(self@);
        let ghost t = self@.fields();
        let size: usize = 0;
        let size = put(&self.trigger, stream, size, Ghost(start), Ghost(total), Ghost(<(u32, Double)>::wire(t.1)))?;
        let size = put(&self.deadband_type, stream, size, Ghost(start), Ghost(total), Ghost(Double::wire(t.1.1)))?;
        let size = put_last(&self.deadband_value, stream, size, Ghost(start), Ghost(total))?;
        Ok(size)
    }

    fn decode(stream: &mut Reader, limits: &DecodingLimits) -> (r: Result<Self, EncodingError>) {
        let ghost start = stream@;
        let ghost taken = 0int;
        assert(start.skip(0) =~= start);
        let ghost unread = stream@;
        let trigger = get::<DataChangeTrigger>(stream, limits, Ghost(start), Ghost(taken))?;
        proof {
            taken = taken + DataChangeTrigger::parse(unread, *limits).unwrap().1;
        }
        let ghost unread = stream@;
        let deadband_type = get::<u32>(stream, limits, Ghost(start), Ghost(taken))?;
        proof {
            taken = taken + u32::parse(unread, *limits).unwrap().1;
        }
        let ghost unread = stream@;
        let deadband_value = get::<Double>(stream, limits, Ghost(start), Ghost(taken))?;
        proof {
            taken = taken + Double::parse(unread, *limits).unwrap().1;
        }
        Ok(DataChangeFilter { trigger, deadband_type, deadband_value })
    }
}

/// Whether a filter takes two values for the same: they are the same, or
/// the filter has a deadband and `in_band` says that they lie within it.
pub open spec fn values_alike(
    filter: DataChangeFilterView,
    a: Option<VariantView>,
    b: Option<VariantView>,
    in_band: bool,
) -> bool {
    a == b || (filter.deadband_type != DEADBAND_NONE && in_band)
}

/// Whether a filter takes two data values for the same: their statuses are
/// the same and, as far as the trigger asks for it, their values are alike
/// and their timestamps are the same.
pub open spec fn alike(
    filter: DataChangeFilterView,
    v1: DataValueView,
    v2: DataValueView,
    in_band: bool,
) -> bool {
    match filter.trigger {
        DataChangeTrigger::Status => v1.status == v2.status,
        DataChangeTrigger::StatusValue => v1.status == v2.status && values_alike(
            filter,
            v1.value,
            v2.value,
            in_band,
        ),
        DataChangeTrigger::StatusValueTimestamp => v1.status == v2.status && values_alike(
            filter,
            v1.value,
            v2.value,
            in_band,
        ) && v1.source_timestamp == v2.source_timestamp && v1.server_timestamp
            == v2.server_timestamp,
    }
}

impl DataChangeFilter {
    /// Compares one data value to another and returns true if the filter
    /// takes them for the same. `in_band` says whether the two values are
    /// numbers that differ by no more than the deadband of the filter.
    pub fn compare(&self, v1: &DataValue, v2: &DataValue, in_band: bool) -> (r: bool)
        ensures
            r == alike(self@, v1@, v2@, in_band),
    {
        let values_alike = same_variant(&v1.value, &v2.value) || (self.deadband_type
            != DEADBAND_NONE && in_band);
        match self.trigger {
            DataChangeTrigger::Status => v1.status == v2.status,
            DataChangeTrigger::StatusValue => v1.status == v2.status && values_alike,
            DataChangeTrigger::StatusValueTimestamp => v1.status == v2.status && values_alike
                && v1.source_timestamp == v2.source_timestamp && v1.server_timestamp
                == v2.server_timestamp,
        }
    }
}

/// With the trigger on the status alone, two data values that differ in
/// nothing but their value are taken for the same.
pub proof fn lemma_status_trigger_ignores_value(
    filter: DataChangeFilterView,
    v: DataValueView,
    other_value: Option<VariantView>,
    in_band: bool,
)
    requires
        filter.trigger == DataChangeTrigger::Status,
    ensures
        alike(filter, v, DataValueView { value: other_value, ..v }, in_band),
{
}

/// With the trigger on status and value, two data values with different
/// values are not taken for the same, unless a deadband holds them together.
pub proof fn lemma_status_value_trigger_sees_value(
    filter: DataChangeFilterView,
    v: DataValueView,
    other_value: Option<VariantView>,
    in_band: bool,
)
    requires
        filter.trigger == DataChangeTrigger::StatusValue,
        other_value != v.value,
        filter.deadband_type == DEADBAND_NONE || !in_band,
    ensures
        !alike(filter, v, DataValueView { value: other_value, ..v }, in_band),
{
}

/// With the trigger on status, value and timestamp, a data value is taken
/// for the same as itself, and for another as soon as the time of the server
/// or of the source differs.
pub proof fn lemma_timestamp_trigger_sees_timestamps(
    filter: DataChangeFilterView,
    v: DataValueView,
    other_time: Option<DateTime>,
    in_band: bool,
)
    requires
        filter.trigger == DataChangeTrigger::StatusValueTimestamp,
    ensures
        alike(filter, v, v, in_band),
        other_time != v.server_timestamp ==> !alike(
            filter,
            v,
            DataValueView { server_timestamp: other_time, ..v },
            in_band,
        ),
        other_time != v.source_timestamp ==> !alike(
            filter,
            v,
            DataValueView { source_timestamp: other_time, ..v },
            in_band,
        ),
{
}


/// Whether a monitored item samples and reports.
#[derive(Clone, Copy, Debug, PartialEq, Eq, Hash, Structural)]
pub enum MonitoringMode {
    /// The item does nothing.
    Disabled,
    /// The item samples, but reports nothing.
    Sampling,
    /// The item samples and reports.
    Reporting,
}

impl DeepView for MonitoringMode {
    type V = MonitoringMode;

    open spec fn deep_view(&self) -> MonitoringMode {
        *self
    }
}

/// The attribute of a node to read or to monitor.
#[derive(Debug, PartialEq)]
pub struct ReadValueId {
    pub node_id: NodeId,
    pub attribute_id: u32,
    pub index_range: UAString,
    pub data_encoding: QualifiedName,
}

/// The value that a `ReadValueId` stands for.
pub struct ReadValueIdView {
    pub node_id: NodeIdView,
    pub attribute_id: u32,
    pub index_range: Option<Seq<char>>,
    pub data_encoding: QualifiedNameView,
}

impl DeepView for ReadValueId {
    type V = ReadValueIdView;

    open spec fn deep_view(&self) -> ReadValueIdView {
        ReadValueIdView {
            node_id: self.node_id.deep_view(),
            attribute_id: self.attribute_id.deep_view(),
            index_range: self.index_range.deep_view(),
            data_encoding: self.data_encoding.deep_view(),
        }
    }
}

impl View for ReadValueId {
    type V = ReadValueIdView;

    open spec fn view(&self) -> ReadValueIdView {
        self.deep_view()
    }
}

impl Clone for ReadValueId {
    fn clone(&self) -> (r: ReadValueId)
        ensures
            r@ == self@,
    {
        ReadValueId {
            node_id: self.node_id.clone(),
            attribute_id: self.attribute_id.clone(),
            index_range: self.index_range.clone(),
            data_encoding: self.data_encoding.clone(),
        }
    }
}

/// How a monitored item samples and queues.
#[derive(Debug, PartialEq, Clone)]
pub struct MonitoringParameters {
    /// The handle by which the client knows the item.
    pub client_handle: u32,
    /// Milliseconds between samples; 0 for the publishing interval, negative for every tick.
    pub sampling_interval: i64,
    /// The filter, in encoded form.
    pub filter: ExtensionObject,
    /// How many notifications the item keeps.
    pub queue_size: u32,
    /// Whether a full queue drops its oldest entry rather than the new one.
    pub discard_oldest: bool,
}

/// The value that a `MonitoringParameters` stands for.
pub struct MonitoringParametersView {
    pub client_handle: u32,
    pub sampling_interval: i64,
    pub filter: ExtensionObjectView,
    pub queue_size: u32,
    pub discard_oldest: bool,
}

impl DeepView for MonitoringParameters {
    type V = MonitoringParametersView;

    open spec fn deep_view(&self) -> MonitoringParametersView {
        MonitoringParametersView {
            client_handle: self.client_handle.deep_view(),
            sampling_interval: self.sampling_interval.deep_view(),
            filter: self.filter.deep_view(),
            queue_size: self.queue_size.deep_view(),
            discard_oldest: self.discard_oldest.deep_view(),
        }
    }
}

impl View for MonitoringParameters {
    type V = MonitoringParametersView;

    open spec fn view(&self) -> MonitoringParametersView {
        self.deep_view()
    }
}

/// Asks for a monitored item.
#[derive(Debug, PartialEq, Clone)]
pub struct MonitoredItemCreateRequest {
    pub item_to_monitor: ReadValueId,
    pub monitoring_mode: MonitoringMode,
    pub requested_parameters: MonitoringParameters,
}

/// The value that a `MonitoredItemCreateRequest` stands for.
pub struct MonitoredItemCreateRequestView {
    pub item_to_monitor: ReadValueIdView,
    pub monitoring_mode: MonitoringMode,
    pub requested_parameters: MonitoringParametersView,
}

impl DeepView for MonitoredItemCreateRequest {
    type V = MonitoredItemCreateRequestView;

    open spec fn deep_view(&self) -> MonitoredItemCreateRequestView {
        MonitoredItemCreateRequestView {
            item_to_monitor: self.item_to_monitor.deep_view(),
            monitoring_mode: self.monitoring_mode.deep_view(),
            requested_parameters: self.requested_parameters.deep_view(),
        }
    }
}

impl View for MonitoredItemCreateRequest {
    type V = MonitoredItemCreateRequestView;

    open spec fn view(&self) -> MonitoredItemCreateRequestView {
        self.deep_view()
    }
}

/// A value that a monitored item reports.
#[derive(Debug, PartialEq)]
pub struct MonitoredItemNotification {
    pub client_handle: u32,
    pub value: DataValue,
}

/// The value that a `MonitoredItemNotification` stands for.
pub struct MonitoredItemNotificationView {
    pub client_handle: u32,
    pub value: DataValueView,
}

impl DeepView for MonitoredItemNotification {
    type V = MonitoredItemNotificationView;

    open spec fn deep_view(&self) -> MonitoredItemNotificationView {
        MonitoredItemNotificationView {
            client_handle: self.client_handle.deep_view(),
            value: self.value.deep_view(),
        }
    }
}

impl View for MonitoredItemNotification {
    type V = MonitoredItemNotificationView;

    open spec fn view(&self) -> MonitoredItemNotificationView {
        self.deep_view()
    }
}

impl Clone for MonitoredItemNotification {
    fn clone(&self) -> (r: MonitoredItemNotification)
        ensures
            r@ == self@,
    {
        MonitoredItemNotification {
            client_handle: self.client_handle.clone(),
            value: self.value.clone(),
        }
    }
}

impl MonitoredItemNotificationView {
    /// The fields in the order in which they travel.
    pub open spec fn fields(self) -> (u32, DataValueView) {
        (self.client_handle, self.value)
    }

    /// The value with the given fields.
    pub open spec fn of_fields(t: (u32, DataValueView)) -> MonitoredItemNotificationView {
        MonitoredItemNotificationView {
            client_handle: t.0,
            value: t.1,
        }
    }
}

/// A notification is the handle of the client, then the value.
impl BinaryEncoder for MonitoredItemNotification {
    open spec fn wire(v: MonitoredItemNotificationView) -> Seq<u8> {
        <(u32, DataValue)>::wire(v.fields())
    }

    open spec fn parse(bytes: Seq<u8>, limits: DecodingLimits) -> Parsed<MonitoredItemNotificationView> {
        match <(u32, DataValue)>::parse(bytes, limits) {
            Err(e) => Err(e),
            Ok((t, n)) => Ok((MonitoredItemNotificationView::of_fields(t), n)),
        }
    }

    open spec fn encodable(v: MonitoredItemNotificationView) -> bool {
        <(u32, DataValue)>::encodable(v.fields())
    }

    open spec fn within(v: MonitoredItemNotificationView, limits: DecodingLimits) -> bool {
        <(u32, DataValue)>::within(v.fields(), limits)
    }

    proof fn lemma_parse_wire(v: MonitoredItemNotificationView, rest: Seq<u8>, limits: DecodingLimits) {
        <(u32, DataValue)>::lemma_parse_wire(v.fields(), rest, limits);
    }

    proof fn lemma_parse_truncated(v: MonitoredItemNotificationView, k: int, limits: DecodingLimits) {
        <(u32, DataValue)>::lemma_parse_truncated(v.fields(), k, limits);
    }

    proof fn lemma_parse_bound(bytes: Seq<u8>, limits: DecodingLimits) {
        <(u32, DataValue)>::lemma_parse_bound(bytes, limits);
    }

    fn byte_len(&self) -> (n: usize) {
        let mut size: usize = 0;
        size += self.client_handle.byte_len();
        size += self.value.byte_len();
        size
    }

    fn encode(&self, stream: &mut Vec<u8>) -> (r: Result<usize, EncodingError>) {
        let ghost start = stream@;
        let ghost total = Self::wire(self@);
        let ghost t = self@.fields();
        let size: usize = 0;
        let size = put(&self.client_handle, stream, size, Ghost(start), Ghost(total), Ghost(DataValue::wire(t.1)))?;
        let size = put_last(&self.value, stream, size, Ghost(start), Ghost(total))?;
        Ok(size)
    }

    fn decode(stream: &mut Reader, limits: &DecodingLimits) -> (r: Result<Self, EncodingError>) {
        let ghost start = stream@;
        let ghost taken = 0int;
        assert(start.skip(0) =~= start);
        let ghost unread = stream@;
        let client_handle = get::<u32>(stream, limits, Ghost(start), Ghost(taken))?;
        proof {
            taken = taken + u32::parse(unread, *limits).unwrap().1;
        }
        let ghost unread = stream@;
        let value = get::<DataValue>(stream, limits, Ghost(start), Ghost(taken))?;
        proof {
            taken = taken + DataValue::parse(unread, *limits).unwrap().1;
        }
        Ok(MonitoredItemNotification { client_handle, value })
    }
}

/// The values that the monitored items of a subscription report at once.
#[derive(Debug, PartialEq, Clone)]
pub struct DataChangeNotification {
    pub monitored_items: Option<Vec<MonitoredItemNotification>>,
    pub diagnostic_infos: Option<Vec<DiagnosticInfo>>,
}

/// The value that a `DataChangeNotification` stands for.
pub struct DataChangeNotificationView {
    pub monitored_items: Option<Seq<MonitoredItemNotificationView>>,
    pub diagnostic_infos: Option<Seq<DiagnosticInfoView>>,
}

impl DeepView for DataChangeNotification {
    type V = DataChangeNotificationView;

    open spec fn deep_view(&self) -> DataChangeNotificationView {
        DataChangeNotificationView {
            monitored_items: self.monitored_items.deep_view(),
            diagnostic_infos: self.diagnostic_infos.deep_view(),
        }
    }
}

impl View for DataChangeNotification {
    type V = DataChangeNotificationView;

    open spec fn view(&self) -> DataChangeNotificationView {
        self.deep_view()
    }
}

impl MessageInfo for DataChangeNotification {
    open spec fn spec_object_id() -> ObjectId {
        ObjectId::DataChangeNotification_Encoding_DefaultBinary
    }

    fn object_id(&self) -> (r: ObjectId) {
        ObjectId::DataChangeNotification_Encoding_DefaultBinary
    }
}

impl DataChangeNotificationView {
    /// The fields in the order in which they travel.
    pub open spec fn fields(self) -> (Option<Seq<MonitoredItemNotificationView>>, Option<Seq<DiagnosticInfoView>>) {
        (self.monitored_items, self.diagnostic_infos)
    }

    /// The value with the given fields.
    pub open spec fn of_fields(t: (Option<Seq<MonitoredItemNotificationView>>, Option<Seq<DiagnosticInfoView>>)) -> DataChangeNotificationView {
        DataChangeNotificationView {
            monitored_items: t.0,
            diagnostic_infos: t.1,
        }
    }
}

/// A data change notification is the array of its notifications, then the array of its diagnostics.
impl BinaryEncoder for DataChangeNotification {
    open spec fn wire(v: DataChangeNotificationView) -> Seq<u8> {
        <(Option<Vec<MonitoredItemNotification>>, Option<Vec<DiagnosticInfo>>)>::wire(v.fields())
    }

    open spec fn parse(bytes: Seq<u8>, limits: DecodingLimits) -> Parsed<DataChangeNotificationView> {
        match <(Option<Vec<MonitoredItemNotification>>, Option<Vec<DiagnosticInfo>>)>::parse(bytes, limits) {
            Err(e) => Err(e),
            Ok((t, n)) => Ok((DataChangeNotificationView::of_fields(t), n)),
        }
    }

    open spec fn encodable(v: DataChangeNotificationView) -> bool {
        <(Option<Vec<MonitoredItemNotification>>, Option<Vec<DiagnosticInfo>>)>::encodable(v.fields())
    }

    open spec fn within(v: DataChangeNotificationView, limits: DecodingLimits) -> bool {
        <(Option<Vec<MonitoredItemNotification>>, Option<Vec<DiagnosticInfo>>)>::within(v.fields(), limits)
    }

    proof fn lemma_parse_wire(v: DataChangeNotificationView, rest: Seq<u8>, limits: DecodingLimits) {
        <(Option<Vec<MonitoredItemNotification>>, Option<Vec<DiagnosticInfo>>)>::lemma_parse_wire(v.fields(), rest, limits);
    }

    proof fn lemma_parse_truncated(v: DataChangeNotificationView, k: int, limits: DecodingLimits) {
        <(Option<Vec<MonitoredItemNotification>>, Option<Vec<DiagnosticInfo>>)>::lemma_parse_truncated(v.fields(), k, limits);
    }

    proof fn lemma_parse_bound(bytes: Seq<u8>, limits: DecodingLimits) {
        <(Option<Vec<MonitoredItemNotification>>, Option<Vec<DiagnosticInfo>>)>::lemma_parse_bound(bytes, limits);
    }

    fn byte_len(&self) -> (n: usize) {
        let mut size: usize = 0;
        size += byte_len_array(&self.monitored_items);
        size += byte_len_array(&self.diagnostic_infos);
        size
    }

    fn encode(&self, stream: &mut Vec<u8>) -> (r: Result<usize, EncodingError>) {
        let ghost start = stream@;
        let ghost total = Self::wire(self@);
        let ghost t = self@.fields();
        let size: usize = 0;
        let size = put(&self.monitored_items, stream, size, Ghost(start), Ghost(total), Ghost(<Option<Vec<DiagnosticInfo>>>::wire(t.1)))?;
        let size = put_last(&self.diagnostic_infos, stream, size, Ghost(start), Ghost(total))?;
        Ok(size)
    }

    fn decode(stream: &mut Reader, limits: &DecodingLimits) -> (r: Result<Self, EncodingError>) {
        let ghost start = stream@;
        let ghost taken = 0int;
        assert(start.skip(0) =~= start);
        let ghost unread = stream@;
        let monitored_items = get::<Option<Vec<MonitoredItemNotification>>>(stream, limits, Ghost(start), Ghost(taken))?;
        proof {
            taken = taken + <Option<Vec<MonitoredItemNotification>>>::parse(unread, *limits).unwrap().1;
        }
        let ghost unread = stream@;
        let diagnostic_infos = get::<Option<Vec<DiagnosticInfo>>>(stream, limits, Ghost(start), Ghost(taken))?;
        proof {
            taken = taken + <Option<Vec<DiagnosticInfo>>>::parse(unread, *limits).unwrap().1;
        }
        Ok(DataChangeNotification { monitored_items, diagnostic_infos })
    }
}

/// Says that a notification message has arrived.
#[derive(Debug, Copy, Eq, PartialEq, Clone)]
pub struct SubscriptionAcknowledgement {
    pub subscription_id: u32,
    pub sequence_number: u32,
}

/// The value that a `SubscriptionAcknowledgement` stands for.
pub struct SubscriptionAcknowledgementView {
    pub subscription_id: u32,
    pub sequence_number: u32,
}

impl DeepView for SubscriptionAcknowledgement {
    type V = SubscriptionAcknowledgementView;

    open spec fn deep_view(&self) -> SubscriptionAcknowledgementView {
        SubscriptionAcknowledgementView {
            subscription_id: self.subscription_id.deep_view(),
            sequence_number: self.sequence_number.deep_view(),
        }
    }
}

impl View for SubscriptionAcknowledgement {
    type V = SubscriptionAcknowledgementView;

    open spec fn view(&self) -> SubscriptionAcknowledgementView {
        self.deep_view()
    }
}

/// Acknowledges notification messages and asks for the next one.
#[derive(Debug, PartialEq, Clone)]
pub struct PublishRequest {
    pub request_header: RequestHeader,
    pub subscription_acknowledgements: Option<Vec<SubscriptionAcknowledgement>>,
}

/// The value that a `PublishRequest` stands for.
pub struct PublishRequestView {
    pub request_header: RequestHeaderView,
    pub subscription_acknowledgements: Option<Seq<SubscriptionAcknowledgementView>>,
}

impl DeepView for PublishRequest {
    type V = PublishRequestView;

    open spec fn deep_view(&self) -> PublishRequestView {
        PublishRequestView {
            request_header: self.request_header.deep_view(),
            subscription_acknowledgements: self.subscription_acknowledgements.deep_view(),
        }
    }
}

impl View for PublishRequest {
    type V = PublishRequestView;

    open spec fn view(&self) -> PublishRequestView {
        self.deep_view()
    }
}

} // verus!
