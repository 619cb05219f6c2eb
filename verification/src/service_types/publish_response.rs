//! The response that carries notifications to the client.

use crate::encoding::{
    byte_len_array, get, put, put_last, BinaryEncoder, DecodingLimits, EncodingError, Parsed,
    Reader,
};
use crate::diagnostic_info::{DiagnosticInfo, DiagnosticInfoView};
use crate::service_types::message_info::{MessageInfo, ObjectId};
use crate::service_types::notification_message::{NotificationMessage, NotificationMessageView};
use crate::service_types::response_header::{ResponseHeader, ResponseHeaderView};
use crate::status_codes::StatusCode;
use vstd::prelude::*;

verus! {

/// Carries a notification message of one subscription.
#[derive(Debug, PartialEq, Clone)]
pub struct PublishResponse {
    pub response_header: ResponseHeader,
    pub subscription_id: u32,
    pub available_sequence_numbers: Option<Vec<u32>>,
    pub more_notifications: bool,
    pub notification_message: NotificationMessage,
    pub results: Option<Vec<StatusCode>>,
    pub diagnostic_infos: Option<Vec<DiagnosticInfo>>,
}

/// The value that a `PublishResponse` stands for.
pub struct PublishResponseView {
    pub response_header: ResponseHeaderView,
    pub subscription_id: u32,
    pub available_sequence_numbers: Option<Seq<u32>>,
    pub more_notifications: bool,
    pub notification_message: NotificationMessageView,
    pub results: Option<Seq<StatusCode>>,
    pub diagnostic_infos: Option<Seq<DiagnosticInfoView>>,
}

impl DeepView for PublishResponse {
    type V = PublishResponseView;

    open spec fn deep_view(&self) -> PublishResponseView {
        PublishResponseView {
            response_header: self.response_header.deep_view(),
            subscription_id: self.subscription_id.deep_view(),
            available_sequence_numbers: self.available_sequence_numbers.deep_view(),
            more_notifications: self.more_notifications.deep_view(),
            notification_message: self.notification_message.deep_view(),
            results: self.results.deep_view(),
            diagnostic_infos: self.diagnostic_infos.deep_view(),
        }
    }
}

impl View for PublishResponse {
    type V = PublishResponseView;

    open spec fn view(&self) -> PublishResponseView {
        self.deep_view()
    }
}

impl MessageInfo for PublishResponse {
    open spec fn spec_object_id() -> ObjectId {
        ObjectId::PublishResponse_Encoding_DefaultBinary
    }

    fn object_id(&self) -> (r: ObjectId) {
        ObjectId::PublishResponse_Encoding_DefaultBinary
    }
}

impl PublishResponseView {
    /// The fields in the order in which they travel.
    pub open spec fn fields(self) -> (ResponseHeaderView, (u32, (Option<Seq<u32>>, (bool, (NotificationMessageView, (Option<Seq<StatusCode>>, Option<Seq<DiagnosticInfoView>>)))))) {
        (self.response_header, (self.subscription_id, (self.available_sequence_numbers, (self.more_notifications, (self.notification_message, (self.results, self.diagnostic_infos))))))
    }

    /// The value with the given fields.
    pub open spec fn of_fields(t: (ResponseHeaderView, (u32, (Option<Seq<u32>>, (bool, (NotificationMessageView, (Option<Seq<StatusCode>>, Option<Seq<DiagnosticInfoView>>))))))) -> PublishResponseView {
        PublishResponseView {
            response_header: t.0,
            subscription_id: t.1.0,
            available_sequence_numbers: t.1.1.0,
            more_notifications: t.1.1.1.0,
            notification_message: t.1.1.1.1.0,
            results: t.1.1.1.1.1.0,
            diagnostic_infos: t.1.1.1.1.1.1,
        }
    }
}

/// The response is its fields one after the other.
impl BinaryEncoder for PublishResponse {
    open spec fn wire(v: PublishResponseView) -> Seq<u8> {
        <(ResponseHeader, (u32, (Option<Vec<u32>>, (bool, (NotificationMessage, (Option<Vec<StatusCode>>, Option<Vec<DiagnosticInfo>>))))))>::wire(v.fields())
    }

    open spec fn parse(bytes: Seq<u8>, limits: DecodingLimits) -> Parsed<PublishResponseView> {
        match <(ResponseHeader, (u32, (Option<Vec<u32>>, (bool, (NotificationMessage, (Option<Vec<StatusCode>>, Option<Vec<DiagnosticInfo>>))))))>::parse(bytes, limits) {
            Err(e) => Err(e),
            Ok((t, n)) => Ok((PublishResponseView::of_fields(t), n)),
        }
    }

    open spec fn encodable(v: PublishResponseView) -> bool {
        <(ResponseHeader, (u32, (Option<Vec<u32>>, (bool, (NotificationMessage, (Option<Vec<StatusCode>>, Option<Vec<DiagnosticInfo>>))))))>::encodable(v.fields())
    }

    open spec fn within(v: PublishResponseView, limits: DecodingLimits) -> bool {
        <(ResponseHeader, (u32, (Option<Vec<u32>>, (bool, (NotificationMessage, (Option<Vec<StatusCode>>, Option<Vec<DiagnosticInfo>>))))))>::within(v.fields(), limits)
    }

    proof fn lemma_parse_wire(v: PublishResponseView, rest: Seq<u8>, limits: DecodingLimits) {
        <(ResponseHeader, (u32, (Option<Vec<u32>>, (bool, (NotificationMessage, (Option<Vec<StatusCode>>, Option<Vec<DiagnosticInfo>>))))))>::lemma_parse_wire(v.fields(), rest, limits);
    }

    proof fn lemma_parse_truncated(v: PublishResponseView, k: int, limits: DecodingLimits) {
        <(ResponseHeader, (u32, (Option<Vec<u32>>, (bool, (NotificationMessage, (Option<Vec<StatusCode>>, Option<Vec<DiagnosticInfo>>))))))>::lemma_parse_truncated(v.fields(), k, limits);
    }

    proof fn lemma_parse_bound(bytes: Seq<u8>, limits: DecodingLimits) {
        <(ResponseHeader, (u32, (Option<Vec<u32>>, (bool, (NotificationMessage, (Option<Vec<StatusCode>>, Option<Vec<DiagnosticInfo>>))))))>::lemma_parse_bound(bytes, limits);
    }

    fn byte_len(&self) -> (n: usize) {
        let mut size: usize = 0;
        size += self.response_header.byte_len();
        size += self.subscription_id.byte_len();
        size += byte_len_array(&self.available_sequence_numbers);
        size += self.more_notifications.byte_len();
        size += self.notification_message.byte_len();
        size += byte_len_array(&self.results);
        size += byte_len_array(&self.diagnostic_infos);
        size
    }

    fn encode(&self, stream: &mut Vec<u8>) -> (r: Result<usize, EncodingError>) {
        let ghost start = stream@;
        let ghost total = Self::wire(self@);
        let ghost t = self@.fields();
        let size: usize = 0;
        let size = put(&self.response_header, stream, size, Ghost(start), Ghost(total), Ghost(<(u32, (Option<Vec<u32>>, (bool, (NotificationMessage, (Option<Vec<StatusCode>>, Option<Vec<DiagnosticInfo>>)))))>::wire(t.1)))?;
        let size = put(&self.subscription_id, stream, size, Ghost(start), Ghost(total), Ghost(<(Option<Vec<u32>>, (bool, (NotificationMessage, (Option<Vec<StatusCode>>, Option<Vec<DiagnosticInfo>>))))>::wire(t.1.1)))?;
        let size = put(&self.available_sequence_numbers, stream, size, Ghost(start), Ghost(total), Ghost(<(bool, (NotificationMessage, (Option<Vec<StatusCode>>, Option<Vec<DiagnosticInfo>>)))>::wire(t.1.1.1)))?;
        let size = put(&self.more_notifications, stream, size, Ghost(start), Ghost(total), Ghost(<(NotificationMessage, (Option<Vec<StatusCode>>, Option<Vec<DiagnosticInfo>>))>::wire(t.1.1.1.1)))?;
        let size = put(&self.notification_message, stream, size, Ghost(start), Ghost(total), Ghost(<(Option<Vec<StatusCode>>, Option<Vec<DiagnosticInfo>>)>::wire(t.1.1.1.1.1)))?;
        let size = put(&self.results, stream, size, Ghost(start), Ghost(total), Ghost(<Option<Vec<DiagnosticInfo>>>::wire(t.1.1.1.1.1.1)))?;
        let size = put_last(&self.diagnostic_infos, stream, size, Ghost(start), Ghost(total))?;
        Ok(size)
    }

    fn decode(stream: &mut Reader, limits: &DecodingLimits) -> (r: Result<Self, EncodingError>) {
        let ghost start = stream@;
        let ghost taken = 0int;
        assert(start.skip(0) =~= start);
        let ghost unread = stream@;
        let response_header = get::<ResponseHeader>(stream, limits, Ghost(start), Ghost(taken))?;
        proof {
            taken = taken + ResponseHeader::parse(unread, *limits).unwrap().1;
        }
        let ghost unread = stream@;
        let subscription_id = get::<u32>(stream, limits, Ghost(start), Ghost(taken))?;
        proof {
            taken = taken + u32::parse(unread, *limits).unwrap().1;
        }
        let ghost unread = stream@;
        let available_sequence_numbers = get::<Option<Vec<u32>>>(stream, limits, Ghost(start), Ghost(taken))?;
        proof {
            taken = taken + <Option<Vec<u32>>>::parse(unread, *limits).unwrap().1;
        }
        let ghost unread = stream@;
        let more_notifications = get::<bool>(stream, limits, Ghost(start), Ghost(taken))?;
        proof {
            taken = taken + bool::parse(unread, *limits).unwrap().1;
        }
        let ghost unread = stream@;
        let notification_message = get::<NotificationMessage>(stream, limits, Ghost(start), Ghost(taken))?;
        proof {
            taken = taken + NotificationMessage::parse(unread, *limits).unwrap().1;
        }
        let ghost unread = stream@;
        let results = get::<Option<Vec<StatusCode>>>(stream, limits, Ghost(start), Ghost(taken))?;
        proof {
            taken = taken + <Option<Vec<StatusCode>>>::parse(unread, *limits).unwrap().1;
        }
        let ghost unread = stream@;
        let diagnostic_infos = get::<Option<Vec<DiagnosticInfo>>>(stream, limits, Ghost(start), Ghost(taken))?;
        proof {
            taken = taken + <Option<Vec<DiagnosticInfo>>>::parse(unread, *limits).unwrap().1;
        }
        Ok(PublishResponse { response_header, subscription_id, available_sequence_numbers, more_notifications, notification_message, results, diagnostic_infos })
    }
}

} // verus!
