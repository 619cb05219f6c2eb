//! The request to go on with a query.

use crate::encoding::{
    get, put, put_last, BinaryEncoder, DecodingLimits, EncodingError, Parsed, Reader,
};
use crate::byte_string::ByteString;
use crate::service_types::message_info::{MessageInfo, ObjectId};
use crate::service_types::request_header::{RequestHeader, RequestHeaderView};
use vstd::prelude::*;

verus! {

/// Asks for more results of a query, or gives its continuation point up.
#[derive(Debug, PartialEq, Clone)]
pub struct QueryNextRequest {
    pub request_header: RequestHeader,
    pub release_continuation_point: bool,
    pub continuation_point: ByteString,
}

/// The value that a `QueryNextRequest` stands for.
pub struct QueryNextRequestView {
    pub request_header: RequestHeaderView,
    pub release_continuation_point: bool,
    pub continuation_point: Option<Seq<u8>>,
}

impl DeepView for QueryNextRequest {
    type V = QueryNextRequestView;

    open spec fn deep_view(&self) -> QueryNextRequestView {
        QueryNextRequestView {
            request_header: self.request_header.deep_view(),
            release_continuation_point: self.release_continuation_point.deep_view(),
            continuation_point: self.continuation_point.deep_view(),
        }
    }
}

impl View for QueryNextRequest {
    type V = QueryNextRequestView;

    open spec fn view(&self) -> QueryNextRequestView {
        self.deep_view()
    }
}

impl MessageInfo for QueryNextRequest {
    open spec fn spec_object_id() -> ObjectId {
        ObjectId::QueryNextRequest_Encoding_DefaultBinary
    }

    fn object_id(&self) -> (r: ObjectId) {
        ObjectId::QueryNextRequest_Encoding_DefaultBinary
    }
}

impl QueryNextRequestView {
    /// The fields in the order in which they travel.
    pub open spec fn fields(self) -> (RequestHeaderView, (bool, Option<Seq<u8>>)) {
        (self.request_header, (self.release_continuation_point, self.continuation_point))
    }

    /// The value with the given fields.
    pub open spec fn of_fields(t: (RequestHeaderView, (bool, Option<Seq<u8>>))) -> QueryNextRequestView {
        QueryNextRequestView {
            request_header: t.0,
            release_continuation_point: t.1.0,
            continuation_point: t.1.1,
        }
    }
}

/// The request is its fields one after the other.
impl BinaryEncoder for QueryNextRequest {
    open spec fn wire(v: QueryNextRequestView) -> Seq<u8> {
        <(RequestHeader, (bool, ByteString))>::wire(v.fields())
    }

    open spec fn parse(bytes: Seq<u8>, limits: DecodingLimits) -> Parsed<QueryNextRequestView> {
        match <(RequestHeader, (bool, ByteString))>::parse(bytes, limits) {
            Err(e) => Err(e),
            Ok((t, n)) => Ok((QueryNextRequestView::of_fields(t), n)),
        }
    }

    open spec fn encodable(v: QueryNextRequestView) -> bool {
        <(RequestHeader, (bool, ByteString))>::encodable(v.fields())
    }

    open spec fn within(v: QueryNextRequestView, limits: DecodingLimits) -> bool {
        <(RequestHeader, (bool, ByteString))>::within(v.fields(), limits)
    }

    proof fn lemma_parse_wire(v: QueryNextRequestView, rest: Seq<u8>, limits: DecodingLimits) {
        <(RequestHeader, (bool, ByteString))>::lemma_parse_wire(v.fields(), rest, limits);
    }

    proof fn lemma_parse_truncated(v: QueryNextRequestView, k: int, limits: DecodingLimits) {
        <(RequestHeader, (bool, ByteString))>::lemma_parse_truncated(v.fields(), k, limits);
    }

    proof fn lemma_parse_bound(bytes: Seq<u8>, limits: DecodingLimits) {
        <(RequestHeader, (bool, ByteString))>::lemma_parse_bound(bytes, limits);
    }

    fn byte_len(&self) -> (n: usize) {
        let mut size: usize = 0;
        size += self.request_header.byte_len();
        size += self.release_continuation_point.byte_len();
        size += self.continuation_point.byte_len();
        size
    }

    fn encode(&self, stream: &mut Vec<u8>) -> (r: Result<usize, EncodingError>) {
        let ghost start = stream@;
        let ghost total = Self::wire(self@);
        let ghost t = self@.fields();
        let size: usize = 0;
        let size = put(&self.request_header, stream, size, Ghost(start), Ghost(total), Ghost(<(bool, ByteString)>::wire(t.1)))?;
        let size = put(&self.release_continuation_point, stream, size, Ghost(start), Ghost(total), Ghost(ByteString::wire(t.1.1)))?;
        let size = put_last(&self.continuation_point, stream, size, Ghost(start), Ghost(total))?;
        Ok(size)
    }

    fn decode(stream: &mut Reader, limits: &DecodingLimits) -> (r: Result<Self, EncodingError>) {
        let ghost start = stream@;
        let ghost taken = 0int;
        assert(start.skip(0) =~= start);
        let ghost unread = stream@;
        let request_header = get::<RequestHeader>(stream, limits, Ghost(start), Ghost(taken))?;
        proof {
            taken = taken + RequestHeader::parse(unread, *limits).unwrap().1;
        }
        let ghost unread = stream@;
        let release_continuation_point = get::<bool>(stream, limits, Ghost(start), Ghost(taken))?;
        proof {
            taken = taken + bool::parse(unread, *limits).unwrap().1;
        }
        let ghost unread = stream@;
        let continuation_point = get::<ByteString>(stream, limits, Ghost(start), Ghost(taken))?;
        proof {
            taken = taken + ByteString::parse(unread, *limits).unwrap().1;
        }
        Ok(QueryNextRequest { request_header, release_continuation_point, continuation_point })
    }
}

} // verus!
