//! The request to change the settings of a subscription.

use crate::encoding::{
    get, put, put_last, BinaryEncoder, DecodingLimits, EncodingError, Parsed, Reader,
};
use crate::service_types::double::Double;
use crate::service_types::message_info::{MessageInfo, ObjectId};
use crate::service_types::request_header::{RequestHeader, RequestHeaderView};
use vstd::prelude::*;

verus! {

/// Asks for new settings of a subscription.
#[derive(Debug, PartialEq, Clone)]
pub struct ModifySubscriptionRequest {
    pub request_header: RequestHeader,
    pub subscription_id: u32,
    pub requested_publishing_interval: Double,
    pub requested_lifetime_count: u32,
    pub requested_max_keep_alive_count: u32,
    pub max_notifications_per_publish: u32,
    pub priority: u8,
}

/// The value that a `ModifySubscriptionRequest` stands for.
pub struct ModifySubscriptionRequestView {
    pub request_header: RequestHeaderView,
    pub subscription_id: u32,
    pub requested_publishing_interval: Double,
    pub requested_lifetime_count: u32,
    pub requested_max_keep_alive_count: u32,
    pub max_notifications_per_publish: u32,
    pub priority: u8,
}

impl DeepView for ModifySubscriptionRequest {
    type V = ModifySubscriptionRequestView;

    open spec fn deep_view(&self) -> ModifySubscriptionRequestView {
        ModifySubscriptionRequestView {
            request_header: self.request_header.deep_view(),
            subscription_id: self.subscription_id.deep_view(),
            requested_publishing_interval: self.requested_publishing_interval.deep_view(),
            requested_lifetime_count: self.requested_lifetime_count.deep_view(),
            requested_max_keep_alive_count: self.requested_max_keep_alive_count.deep_view(),
            max_notifications_per_publish: self.max_notifications_per_publish.deep_view(),
            priority: self.priority.deep_view(),
        }
    }
}

impl View for ModifySubscriptionRequest {
    type V = ModifySubscriptionRequestView;

    open spec fn view(&self) -> ModifySubscriptionRequestView {
        self.deep_view()
    }
}

impl MessageInfo for ModifySubscriptionRequest {
    open spec fn spec_object_id() -> ObjectId {
        ObjectId::ModifySubscriptionRequest_Encoding_DefaultBinary
    }

    fn object_id(&self) -> (r: ObjectId) {
        ObjectId::ModifySubscriptionRequest_Encoding_DefaultBinary
    }
}

impl ModifySubscriptionRequestView {
    /// The fields in the order in which they travel.
    pub open spec fn fields(self) -> (RequestHeaderView, (u32, (Double, (u32, (u32, (u32, u8)))))) {
        (self.request_header, (self.subscription_id, (self.requested_publishing_interval, (self.requested_lifetime_count, (self.requested_max_keep_alive_count, (self.max_notifications_per_publish, self.priority))))))
    }

    /// The value with the given fields.
    pub open spec fn of_fields(t: (RequestHeaderView, (u32, (Double, (u32, (u32, (u32, u8))))))) -> ModifySubscriptionRequestView {
        ModifySubscriptionRequestView {
            request_header: t.0,
            subscription_id: t.1.0,
            requested_publishing_interval: t.1.1.0,
            requested_lifetime_count: t.1.1.1.0,
            requested_max_keep_alive_count: t.1.1.1.1.0,
            max_notifications_per_publish: t.1.1.1.1.1.0,
            priority: t.1.1.1.1.1.1,
        }
    }
}

/// The request is its fields one after the other.
impl BinaryEncoder for ModifySubscriptionRequest {
    open spec fn wire(v: ModifySubscriptionRequestView) -> Seq<u8> {
        <(RequestHeader, (u32, (Double, (u32, (u32, (u32, u8))))))>::wire(v.fields())
    }

    open spec fn parse(bytes: Seq<u8>, limits: DecodingLimits) -> Parsed<ModifySubscriptionRequestView> {
        match <(RequestHeader, (u32, (Double, (u32, (u32, (u32, u8))))))>::parse(bytes, limits) {
            Err(e) => Err(e),
            Ok((t, n)) => Ok((ModifySubscriptionRequestView::of_fields(t), n)),
        }
    }

    open spec fn encodable(v: ModifySubscriptionRequestView) -> bool {
        <(RequestHeader, (u32, (Double, (u32, (u32, (u32, u8))))))>::encodable(v.fields())
    }

    open spec fn within(v: ModifySubscriptionRequestView, limits: DecodingLimits) -> bool {
        <(RequestHeader, (u32, (Double, (u32, (u32, (u32, u8))))))>::within(v.fields(), limits)
    }

    proof fn lemma_parse_wire(v: ModifySubscriptionRequestView, rest: Seq<u8>, limits: DecodingLimits) {
        <(RequestHeader, (u32, (Double, (u32, (u32, (u32, u8))))))>::lemma_parse_wire(v.fields(), rest, limits);
    }

    proof fn lemma_parse_truncated(v: ModifySubscriptionRequestView, k: int, limits: DecodingLimits) {
        <(RequestHeader, (u32, (Double, (u32, (u32, (u32, u8))))))>::lemma_parse_truncated(v.fields(), k, limits);
    }

    proof fn lemma_parse_bound(bytes: Seq<u8>, limits: DecodingLimits) {
        <(RequestHeader, (u32, (Double, (u32, (u32, (u32, u8))))))>::lemma_parse_bound(bytes, limits);
    }

    fn byte_len(&self) -> (n: usize) {
        let mut size: usize = 0;
        size += self.request_header.byte_len();
        size += self.subscription_id.byte_len();
        size += self.requested_publishing_interval.byte_len();
        size += self.requested_lifetime_count.byte_len();
        size += self.requested_max_keep_alive_count.byte_len();
        size += self.max_notifications_per_publish.byte_len();
        size += self.priority.byte_len();
        size
    }

    fn encode(&self, stream: &mut Vec<u8>) -> (r: Result<usize, EncodingError>) {
        let ghost start = stream@;
        let ghost total = Self::wire(self@);
        let ghost t = self@.fields();
        let size: usize = 0;
        let size = put(&self.request_header, stream, size, Ghost(start), Ghost(total), Ghost(<(u32, (Double, (u32, (u32, (u32, u8)))))>::wire(t.1)))?;
        let size = put(&self.subscription_id, stream, size, Ghost(start), Ghost(total), Ghost(<(Double, (u32, (u32, (u32, u8))))>::wire(t.1.1)))?;
        let size = put(&self.requested_publishing_interval, stream, size, Ghost(start), Ghost(total), Ghost(<(u32, (u32, (u32, u8)))>::wire(t.1.1.1)))?;
        let size = put(&self.requested_lifetime_count, stream, size, Ghost(start), Ghost(total), Ghost(<(u32, (u32, u8))>::wire(t.1.1.1.1)))?;
        let size = put(&self.requested_max_keep_alive_count, stream, size, Ghost(start), Ghost(total), Ghost(<(u32, u8)>::wire(t.1.1.1.1.1)))?;
        let size = put(&self.max_notifications_per_publish, stream, size, Ghost(start), Ghost(total), Ghost(u8::wire(t.1.1.1.1.1.1)))?;
        let size = put_last(&self.priority, stream, size, Ghost(start), Ghost(total))?;
        Ok(size)
    }

    fn decode(stream: &mut Reader, limits: &DecodingLimits) -> (r: Result<Self, EncodingError>) {
        let ghost start = stream@;
        let ghost taken = 0int;
        assert(start.skip(0) =~= start);
        let ghost unread = stream@;
        let request_header = get::<RequestHeader>(stream, limits, Ghost(start), Ghost(taken))?;
        proof {
            taken = taken + RequestHeader::parse(unread, *limits).unwrap().1;
        }
        let ghost unread = stream@;
        let subscription_id = get::<u32>(stream, limits, Ghost(start), Ghost(taken))?;
        proof {
            taken = taken + u32::parse(unread, *limits).unwrap().1;
        }
        let ghost unread = stream@;
        let requested_publishing_interval = get::<Double>(stream, limits, Ghost(start), Ghost(taken))?;
        proof {
            taken = taken + Double::parse(unread, *limits).unwrap().1;
        }
        let ghost unread = stream@;
        let requested_lifetime_count = get::<u32>(stream, limits, Ghost(start), Ghost(taken))?;
        proof {
            taken = taken + u32::parse(unread, *limits).unwrap().1;
        }
        let ghost unread = stream@;
        let requested_max_keep_alive_count = get::<u32>(stream, limits, Ghost(start), Ghost(taken))?;
        proof {
            taken = taken + u32::parse(unread, *limits).unwrap().1;
        }
        let ghost unread = stream@;
        let max_notifications_per_publish = get::<u32>(stream, limits, Ghost(start), Ghost(taken))?;
        proof {
            taken = taken + u32::parse(unread, *limits).unwrap().1;
        }
        let ghost unread = stream@;
        let priority = get::<u8>(stream, limits, Ghost(start), Ghost(taken))?;
        proof {
            taken = taken + u8::parse(unread, *limits).unwrap().1;
        }
        Ok(ModifySubscriptionRequest { request_header, subscription_id, requested_publishing_interval, requested_lifetime_count, requested_max_keep_alive_count, max_notifications_per_publish, priority })
    }
}

} // verus!
