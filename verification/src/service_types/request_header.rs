//! The header that every request carries.

use crate::encoding::{
    get, put, put_last, BinaryEncoder, DecodingLimits, EncodingError, Parsed, Reader,
};
use crate::basic_types::{ExtensionObject, ExtensionObjectView};
use crate::date_time::DateTime;
use crate::node_id::{NodeId, NodeIdView};
use crate::string::UAString;
use vstd::prelude::*;

verus! {

/// The header of a request.
#[derive(Debug, PartialEq, Clone)]
pub struct RequestHeader {
    /// The secret that names the session.
    pub authentication_token: NodeId,
    /// When the client sent the request.
    pub timestamp: DateTime,
    /// A handle that the response gives back.
    pub request_handle: u32,
    /// Which diagnostics the client asks for.
    pub return_diagnostics: u32,
    /// An identifier for the client's audit log.
    pub audit_entry_id: UAString,
    /// After how many milliseconds the client gives up; 0 for never.
    pub timeout_hint: u32,
    /// Reserved.
    pub additional_header: ExtensionObject,
}

/// The value that a `RequestHeader` stands for.
pub struct RequestHeaderView {
    pub authentication_token: NodeIdView,
    pub timestamp: DateTime,
    pub request_handle: u32,
    pub return_diagnostics: u32,
    pub audit_entry_id: Option<Seq<char>>,
    pub timeout_hint: u32,
    pub additional_header: ExtensionObjectView,
}

impl DeepView for RequestHeader {
    type V = RequestHeaderView;

    open spec fn deep_view(&self) -> RequestHeaderView {
        RequestHeaderView {
            authentication_token: self.authentication_token.deep_view(),
            timestamp: self.timestamp.deep_view(),
            request_handle: self.request_handle.deep_view(),
            return_diagnostics: self.return_diagnostics.deep_view(),
            audit_entry_id: self.audit_entry_id.deep_view(),
            timeout_hint: self.timeout_hint.deep_view(),
            additional_header: self.additional_header.deep_view(),
        }
    }
}

impl View for RequestHeader {
    type V = RequestHeaderView;

    open spec fn view(&self) -> RequestHeaderView {
        self.deep_view()
    }
}

impl RequestHeaderView {
    /// The fields in the order in which they travel.
    pub open spec fn fields(self) -> (NodeIdView, (DateTime, (u32, (u32, (Option<Seq<char>>, (u32, ExtensionObjectView)))))) {
        (self.authentication_token, (self.timestamp, (self.request_handle, (self.return_diagnostics, (self.audit_entry_id, (self.timeout_hint, self.additional_header))))))
    }

    /// The value with the given fields.
    pub open spec fn of_fields(t: (NodeIdView, (DateTime, (u32, (u32, (Option<Seq<char>>, (u32, ExtensionObjectView))))))) -> RequestHeaderView {
        RequestHeaderView {
            authentication_token: t.0,
            timestamp: t.1.0,
            request_handle: t.1.1.0,
            return_diagnostics: t.1.1.1.0,
            audit_entry_id: t.1.1.1.1.0,
            timeout_hint: t.1.1.1.1.1.0,
            additional_header: t.1.1.1.1.1.1,
        }
    }
}

/// A request header is its fields one after the other.
impl BinaryEncoder for RequestHeader {
    open spec fn wire(v: RequestHeaderView) -> Seq<u8> {
        <(NodeId, (DateTime, (u32, (u32, (UAString, (u32, ExtensionObject))))))>::wire(v.fields())
    }

    open spec fn parse(bytes: Seq<u8>, limits: DecodingLimits) -> Parsed<RequestHeaderView> {
        match <(NodeId, (DateTime, (u32, (u32, (UAString, (u32, ExtensionObject))))))>::parse(bytes, limits) {
            Err(e) => Err(e),
            Ok((t, n)) => Ok((RequestHeaderView::of_fields(t), n)),
        }
    }

    open spec fn encodable(v: RequestHeaderView) -> bool {
        <(NodeId, (DateTime, (u32, (u32, (UAString, (u32, ExtensionObject))))))>::encodable(v.fields())
    }

    open spec fn within(v: RequestHeaderView, limits: DecodingLimits) -> bool {
        <(NodeId, (DateTime, (u32, (u32, (UAString, (u32, ExtensionObject))))))>::within(v.fields(), limits)
    }

    proof fn lemma_parse_wire(v: RequestHeaderView, rest: Seq<u8>, limits: DecodingLimits) {
        <(NodeId, (DateTime, (u32, (u32, (UAString, (u32, ExtensionObject))))))>::lemma_parse_wire(v.fields(), rest, limits);
    }

    proof fn lemma_parse_truncated(v: RequestHeaderView, k: int, limits: DecodingLimits) {
        <(NodeId, (DateTime, (u32, (u32, (UAString, (u32, ExtensionObject))))))>::lemma_parse_truncated(v.fields(), k, limits);
    }

    proof fn lemma_parse_bound(bytes: Seq<u8>, limits: DecodingLimits) {
        <(NodeId, (DateTime, (u32, (u32, (UAString, (u32, ExtensionObject))))))>::lemma_parse_bound(bytes, limits);
    }

    fn byte_len(&self) -> (n: usize) {
        let mut size: usize = 0;
        size += self.authentication_token.byte_len();
        size += self.timestamp.byte_len();
        size += self.request_handle.byte_len();
        size += self.return_diagnostics.byte_len();
        size += self.audit_entry_id.byte_len();
        size += self.timeout_hint.byte_len();
        size += self.additional_header.byte_len();
        size
    }

    fn encode(&self, stream: &mut Vec<u8>) -> (r: Result<usize, EncodingError>) {
        let ghost start = stream@;
        let ghost total = Self::wire(self@);
        let ghost t = self@.fields();
        let size: usize = 0;
        let size = put(&self.authentication_token, stream, size, Ghost(start), Ghost(total), Ghost(<(DateTime, (u32, (u32, (UAString, (u32, ExtensionObject)))))>::wire(t.1)))?;
        let size = put(&self.timestamp, stream, size, Ghost(start), Ghost(total), Ghost(<(u32, (u32, (UAString, (u32, ExtensionObject))))>::wire(t.1.1)))?;
        let size = put(&self.request_handle, stream, size, Ghost(start), Ghost(total), Ghost(<(u32, (UAString, (u32, ExtensionObject)))>::wire(t.1.1.1)))?;
        let size = put(&self.return_diagnostics, stream, size, Ghost(start), Ghost(total), Ghost(<(UAString, (u32, ExtensionObject))>::wire(t.1.1.1.1)))?;
        let size = put(&self.audit_entry_id, stream, size, Ghost(start), Ghost(total), Ghost(<(u32, ExtensionObject)>::wire(t.1.1.1.1.1)))?;
        let size = put(&self.timeout_hint, stream, size, Ghost(start), Ghost(total), Ghost(ExtensionObject::wire(t.1.1.1.1.1.1)))?;
        let size = put_last(&self.additional_header, stream, size, Ghost(start), Ghost(total))?;
        Ok(size)
    }

    fn decode(stream: &mut Reader, limits: &DecodingLimits) -> (r: Result<Self, EncodingError>) {
        let ghost start = stream@;
        let ghost taken = 0int;
        assert(start.skip(0) =~= start);
        let ghost unread = stream@;
        let authentication_token = get::<NodeId>(stream, limits, Ghost(start), Ghost(taken))?;
        proof {
            taken = taken + NodeId::parse(unread, *limits).unwrap().1;
        }
        let ghost unread = stream@;
        let timestamp = get::<DateTime>(stream, limits, Ghost(start), Ghost(taken))?;
        proof {
            taken = taken + DateTime::parse(unread, *limits).unwrap().1;
        }
        let ghost unread = stream@;
        let request_handle = get::<u32>(stream, limits, Ghost(start), Ghost(taken))?;
        proof {
            taken = taken + u32::parse(unread, *limits).unwrap().1;
        }
        let ghost unread = stream@;
        let return_diagnostics = get::<u32>(stream, limits, Ghost(start), Ghost(taken))?;
        proof {
            taken = taken + u32::parse(unread, *limits).unwrap().1;
        }
        let ghost unread = stream@;
        let audit_entry_id = get::<UAString>(stream, limits, Ghost(start), Ghost(taken))?;
        proof {
            taken = taken + UAString::parse(unread, *limits).unwrap().1;
        }
        let ghost unread = stream@;
        let timeout_hint = get::<u32>(stream, limits, Ghost(start), Ghost(taken))?;
        proof {
            taken = taken + u32::parse(unread, *limits).unwrap().1;
        }
        let ghost unread = stream@;
        let additional_header = get::<ExtensionObject>(stream, limits, Ghost(start), Ghost(taken))?;
        proof {
            taken = taken + ExtensionObject::parse(unread, *limits).unwrap().1;
        }
        Ok(RequestHeader { authentication_token, timestamp, request_handle, return_diagnostics, audit_entry_id, timeout_hint, additional_header })
    }
}

impl RequestHeader {
    /// A header with the given token, time and handle and nothing else.
    pub fn new(authentication_token: &NodeId, timestamp: &DateTime, request_handle: u32) -> (r:
        RequestHeader)
        ensures
            r@.authentication_token == authentication_token@,
            r@.timestamp == *timestamp,
            r@.request_handle == request_handle,
            r@.return_diagnostics == 0,
            r@.audit_entry_id is None,
            r@.timeout_hint == 0,
            r@.additional_header == ExtensionObjectView::null(),
    {
        RequestHeader {
            authentication_token: authentication_token.clone(),
            timestamp: *timestamp,
            request_handle,
            return_diagnostics: 0,
            audit_entry_id: UAString::null(),
            timeout_hint: 0,
            additional_header: ExtensionObject::null(),
        }
    }
}

} // verus!
