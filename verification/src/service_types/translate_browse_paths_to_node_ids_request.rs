//! The request to resolve browse paths to node ids.

use crate::encoding::{
    byte_len_array, get, put, put_last, BinaryEncoder, DecodingLimits, EncodingError, Parsed,
    Reader,
};
use crate::service_types::message_info::{MessageInfo, ObjectId};
use crate::service_types::relative_path::{BrowsePath, BrowsePathView};
use crate::service_types::request_header::{RequestHeader, RequestHeaderView};
use vstd::prelude::*;

verus! {

/// Translates one or more paths in the server address space.
#[derive(Debug, PartialEq, Clone)]
pub struct TranslateBrowsePathsToNodeIdsRequest {
    pub request_header: RequestHeader,
    pub browse_paths: Option<Vec<BrowsePath>>,
}

/// The value that a `TranslateBrowsePathsToNodeIdsRequest` stands for.
pub struct TranslateBrowsePathsToNodeIdsRequestView {
    pub request_header: RequestHeaderView,
    pub browse_paths: Option<Seq<BrowsePathView>>,
}

impl DeepView for TranslateBrowsePathsToNodeIdsRequest {
    type V = TranslateBrowsePathsToNodeIdsRequestView;

    open spec fn deep_view(&self) -> TranslateBrowsePathsToNodeIdsRequestView {
        TranslateBrowsePathsToNodeIdsRequestView {
            request_header: self.request_header.deep_view(),
            browse_paths: self.browse_paths.deep_view(),
        }
    }
}

impl View for TranslateBrowsePathsToNodeIdsRequest {
    type V = TranslateBrowsePathsToNodeIdsRequestView;

    open spec fn view(&self) -> TranslateBrowsePathsToNodeIdsRequestView {
        self.deep_view()
    }
}

impl MessageInfo for TranslateBrowsePathsToNodeIdsRequest {
    open spec fn spec_object_id() -> ObjectId {
        ObjectId::TranslateBrowsePathsToNodeIdsRequest_Encoding_DefaultBinary
    }

    fn object_id(&self) -> (r: ObjectId) {
        ObjectId::TranslateBrowsePathsToNodeIdsRequest_Encoding_DefaultBinary
    }
}

impl TranslateBrowsePathsToNodeIdsRequestView {
    /// The fields in the order in which they travel.
    pub open spec fn fields(self) -> (RequestHeaderView, Option<Seq<BrowsePathView>>) {
        (self.request_header, self.browse_paths)
    }

    /// The value with the given fields.
    pub open spec fn of_fields(t: (RequestHeaderView, Option<Seq<BrowsePathView>>)) -> TranslateBrowsePathsToNodeIdsRequestView {
        TranslateBrowsePathsToNodeIdsRequestView {
            request_header: t.0,
            browse_paths: t.1,
        }
    }
}

/// The request is its header, then the array of its paths.
impl BinaryEncoder for TranslateBrowsePathsToNodeIdsRequest {
    open spec fn wire(v: TranslateBrowsePathsToNodeIdsRequestView) -> Seq<u8> {
        <(RequestHeader, Option<Vec<BrowsePath>>)>::wire(v.fields())
    }

    open spec fn parse(bytes: Seq<u8>, limits: DecodingLimits) -> Parsed<TranslateBrowsePathsToNodeIdsRequestView> {
        match <(RequestHeader, Option<Vec<BrowsePath>>)>::parse(bytes, limits) {
            Err(e) => Err(e),
            Ok((t, n)) => Ok((TranslateBrowsePathsToNodeIdsRequestView::of_fields(t), n)),
        }
    }

    open spec fn encodable(v: TranslateBrowsePathsToNodeIdsRequestView) -> bool {
        <(RequestHeader, Option<Vec<BrowsePath>>)>::encodable(v.fields())
    }

    open spec fn within(v: TranslateBrowsePathsToNodeIdsRequestView, limits: DecodingLimits) -> bool {
        <(RequestHeader, Option<Vec<BrowsePath>>)>::within(v.fields(), limits)
    }

    proof fn lemma_parse_wire(v: TranslateBrowsePathsToNodeIdsRequestView, rest: Seq<u8>, limits: DecodingLimits) {
        <(RequestHeader, Option<Vec<BrowsePath>>)>::lemma_parse_wire(v.fields(), rest, limits);
    }

    proof fn lemma_parse_truncated(v: TranslateBrowsePathsToNodeIdsRequestView, k: int, limits: DecodingLimits) {
        <(RequestHeader, Option<Vec<BrowsePath>>)>::lemma_parse_truncated(v.fields(), k, limits);
    }

    proof fn lemma_parse_bound(bytes: Seq<u8>, limits: DecodingLimits) {
        <(RequestHeader, Option<Vec<BrowsePath>>)>::lemma_parse_bound(bytes, limits);
    }

    fn byte_len(&self) -> (n: usize) {
        let mut size: usize = 0;
        size += self.request_header.byte_len();
        size += byte_len_array(&self.browse_paths);
        size
    }

    fn encode(&self, stream: &mut Vec<u8>) -> (r: Result<usize, EncodingError>) {
        let ghost start = stream@;
        let ghost total = Self::wire(self@);
        let ghost t = self@.fields();
        let size: usize = 0;
        let size = put(&self.request_header, stream, size, Ghost(start), Ghost(total), Ghost(<Option<Vec<BrowsePath>>>::wire(t.1)))?;
        let size = put_last(&self.browse_paths, stream, size, Ghost(start), Ghost(total))?;
        Ok(size)
    }

    fn decode(stream: &mut Reader, limits: &DecodingLimits) -> (r: Result<Self, EncodingError>) {
        let ghost start = stream@;
        let ghost taken = 0int;
        assert(start.skip(0) =~= start);
        let ghost unread = stream@;
        let request_header = get::<RequestHeader>(stream, limits, Ghost(start), Ghost(taken))?;
        proof {
            taken = taken + RequestHeader::parse(unread, *limits).unwrap().1;
        }
        let ghost unread = stream@;
        let browse_paths = get::<Option<Vec<BrowsePath>>>(stream, limits, Ghost(start), Ghost(taken))?;
        proof {
            taken = taken + <Option<Vec<BrowsePath>>>::parse(unread, *limits).unwrap().1;
        }
        Ok(TranslateBrowsePathsToNodeIdsRequest { request_header, browse_paths })
    }
}

} // verus!
