//! The notifications that one publish response carries.

use crate::encoding::{
    byte_len_array, get, put, put_last, BinaryEncoder, DecodingLimits, EncodingError, Parsed,
    Reader,
};
use crate::basic_types::{ExtensionObject, ExtensionObjectView};
use crate::date_time::DateTime;
use vstd::prelude::*;

verus! {

/// A numbered batch of notifications.
#[derive(Debug, PartialEq, Clone)]
pub struct NotificationMessage {
    /// The number of the message within its subscription.
    pub sequence_number: u32,
    /// When the message was made.
    pub publish_time: DateTime,
    /// The notifications, each in encoded form.
    pub notification_data: Option<Vec<ExtensionObject>>,
}

/// The value that a `NotificationMessage` stands for.
pub struct NotificationMessageView {
    pub sequence_number: u32,
    pub publish_time: DateTime,
    pub notification_data: Option<Seq<ExtensionObjectView>>,
}

impl DeepView for NotificationMessage {
    type V = NotificationMessageView;

    open spec fn deep_view(&self) -> NotificationMessageView {
        NotificationMessageView {
            sequence_number: self.sequence_number.deep_view(),
            publish_time: self.publish_time.deep_view(),
            notification_data: self.notification_data.deep_view(),
        }
    }
}

impl View for NotificationMessage {
    type V = NotificationMessageView;

    open spec fn view(&self) -> NotificationMessageView {
        self.deep_view()
    }
}

impl NotificationMessageView {
    /// The fields in the order in which they travel.
    pub open spec fn fields(self) -> (u32, (DateTime, Option<Seq<ExtensionObjectView>>)) {
        (self.sequence_number, (self.publish_time, self.notification_data))
    }

    /// The value with the given fields.
    pub open spec fn of_fields(t: (u32, (DateTime, Option<Seq<ExtensionObjectView>>))) -> NotificationMessageView {
        NotificationMessageView {
            sequence_number: t.0,
            publish_time: t.1.0,
            notification_data: t.1.1,
        }
    }
}

/// A notification message is its fields one after the other.
impl BinaryEncoder for NotificationMessage {
    open spec fn wire(v: NotificationMessageView) -> Seq<u8> {
        <(u32, (DateTime, Option<Vec<ExtensionObject>>))>::wire(v.fields())
    }

    open spec fn parse(bytes: Seq<u8>, limits: DecodingLimits) -> Parsed<NotificationMessageView> {
        match <(u32, (DateTime, Option<Vec<ExtensionObject>>))>::parse(bytes, limits) {
            Err(e) => Err(e),
            Ok((t, n)) => Ok((NotificationMessageView::of_fields(t), n)),
        }
    }

    open spec fn encodable(v: NotificationMessageView) -> bool {
        <(u32, (DateTime, Option<Vec<ExtensionObject>>))>::encodable(v.fields())
    }

    open spec fn within(v: NotificationMessageView, limits: DecodingLimits) -> bool {
        <(u32, (DateTime, Option<Vec<ExtensionObject>>))>::within(v.fields(), limits)
    }

    proof fn lemma_parse_wire(v: NotificationMessageView, rest: Seq<u8>, limits: DecodingLimits) {
        <(u32, (DateTime, Option<Vec<ExtensionObject>>))>::lemma_parse_wire(v.fields(), rest, limits);
    }

    proof fn lemma_parse_truncated(v: NotificationMessageView, k: int, limits: DecodingLimits) {
        <(u32, (DateTime, Option<Vec<ExtensionObject>>))>::lemma_parse_truncated(v.fields(), k, limits);
    }

    proof fn lemma_parse_bound(bytes: Seq<u8>, limits: DecodingLimits) {
        <(u32, (DateTime, Option<Vec<ExtensionObject>>))>::lemma_parse_bound(bytes, limits);
    }

    fn byte_len(&self) -> (n: usize) {
        let mut size: usize = 0;
        size += self.sequence_number.byte_len();
        size += self.publish_time.byte_len();
        size += byte_len_array(&self.notification_data);
        size
    }

    fn encode(&self, stream: &mut Vec<u8>) -> (r: Result<usize, EncodingError>) {
        let ghost start = stream@;
        let ghost total = Self::wire(self@);
        let ghost t = self@.fields();
        let size: usize = 0;
        let size = put(&self.sequence_number, stream, size, Ghost(start), Ghost(total), Ghost(<(DateTime, Option<Vec<ExtensionObject>>)>::wire(t.1)))?;
        let size = put(&self.publish_time, stream, size, Ghost(start), Ghost(total), Ghost(<Option<Vec<ExtensionObject>>>::wire(t.1.1)))?;
        let size = put_last(&self.notification_data, stream, size, Ghost(start), Ghost(total))?;
        Ok(size)
    }

    fn decode(stream: &mut Reader, limits: &DecodingLimits) -> (r: Result<Self, EncodingError>) {
        let ghost start = stream@;
        let ghost taken = 0int;
        assert(start.skip(0) =~= start);
        let ghost unread = stream@;
        let sequence_number = get::<u32>(stream, limits, Ghost(start), Ghost(taken))?;
        proof {
            taken = taken + u32::parse(unread, *limits).unwrap().1;
        }
        let ghost unread = stream@;
        let publish_time = get::<DateTime>(stream, limits, Ghost(start), Ghost(taken))?;
        proof {
            taken = taken + DateTime::parse(unread, *limits).unwrap().1;
        }
        let ghost unread = stream@;
        let notification_data = get::<Option<Vec<ExtensionObject>>>(stream, limits, Ghost(start), Ghost(taken))?;
        proof {
            taken = taken + <Option<Vec<ExtensionObject>>>::parse(unread, *limits).unwrap().1;
        }
        Ok(NotificationMessage { sequence_number, publish_time, notification_data })
    }
}

} // verus!
