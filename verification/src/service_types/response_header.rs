//! The header that every response carries.

use crate::encoding::{
    byte_len_array, get, put, put_last, BinaryEncoder, DecodingLimits, EncodingError, Parsed,
    Reader,
};
use crate::basic_types::{ExtensionObject, ExtensionObjectView};
use crate::date_time::DateTime;
use crate::diagnostic_info::{DiagnosticInfo, DiagnosticInfoView};
use crate::service_types::request_header::RequestHeader;
use crate::status_codes::{StatusCode, GOOD};
use crate::string::UAString;
use vstd::prelude::*;

verus! {

/// The header of a response.
#[derive(Debug, PartialEq, Clone)]
pub struct ResponseHeader {
    /// When the server sent the response.
    pub timestamp: DateTime,
    /// The handle that the request carried.
    pub request_handle: u32,
    /// The outcome of the service call.
    pub service_result: StatusCode,
    /// Diagnostics for the service call.
    pub service_diagnostics: DiagnosticInfo,
    /// The strings that the diagnostics refer to.
    pub string_table: Option<Vec<UAString>>,
    /// Reserved.
    pub additional_header: ExtensionObject,
}

/// The value that a `ResponseHeader` stands for.
pub struct ResponseHeaderView {
    pub timestamp: DateTime,
    pub request_handle: u32,
    pub service_result: StatusCode,
    pub service_diagnostics: DiagnosticInfoView,
    pub string_table: Option<Seq<Option<Seq<char>>>>,
    pub additional_header: ExtensionObjectView,
}

impl DeepView for ResponseHeader {
    type V = ResponseHeaderView;

    open spec fn deep_view(&self) -> ResponseHeaderView {
        ResponseHeaderView {
            timestamp: self.timestamp.deep_view(),
            request_handle: self.request_handle.deep_view(),
            service_result: self.service_result.deep_view(),
            service_diagnostics: self.service_diagnostics.deep_view(),
            string_table: self.string_table.deep_view(),
            additional_header: self.additional_header.deep_view(),
        }
    }
}

impl View for ResponseHeader {
    type V = ResponseHeaderView;

    open spec fn view(&self) -> ResponseHeaderView {
        self.deep_view()
    }
}

impl ResponseHeaderView {
    /// The fields in the order in which they travel.
    pub open spec fn fields(self) -> (DateTime, (u32, (StatusCode, (DiagnosticInfoView, (Option<Seq<Option<Seq<char>>>>, ExtensionObjectView))))) {
        (self.timestamp, (self.request_handle, (self.service_result, (self.service_diagnostics, (self.string_table, self.additional_header)))))
    }

    /// The value with the given fields.
    pub open spec fn of_fields(t: (DateTime, (u32, (StatusCode, (DiagnosticInfoView, (Option<Seq<Option<Seq<char>>>>, ExtensionObjectView)))))) -> ResponseHeaderView {
        ResponseHeaderView {
            timestamp: t.0,
            request_handle: t.1.0,
            service_result: t.1.1.0,
            service_diagnostics: t.1.1.1.0,
            string_table: t.1.1.1.1.0,
            additional_header: t.1.1.1.1.1,
        }
    }
}

/// A response header is its fields one after the other.
impl BinaryEncoder for ResponseHeader {
    open spec fn wire(v: ResponseHeaderView) -> Seq<u8> {
        <(DateTime, (u32, (StatusCode, (DiagnosticInfo, (Option<Vec<UAString>>, ExtensionObject)))))>::wire(v.fields())
    }

    open spec fn parse(bytes: Seq<u8>, limits: DecodingLimits) -> Parsed<ResponseHeaderView> {
        match <(DateTime, (u32, (StatusCode, (DiagnosticInfo, (Option<Vec<UAString>>, ExtensionObject)))))>::parse(bytes, limits) {
            Err(e) => Err(e),
            Ok((t, n)) => Ok((ResponseHeaderView::of_fields(t), n)),
        }
    }

    open spec fn encodable(v: ResponseHeaderView) -> bool {
        <(DateTime, (u32, (StatusCode, (DiagnosticInfo, (Option<Vec<UAString>>, ExtensionObject)))))>::encodable(v.fields())
    }

    open spec fn within(v: ResponseHeaderView, limits: DecodingLimits) -> bool {
        <(DateTime, (u32, (StatusCode, (DiagnosticInfo, (Option<Vec<UAString>>, ExtensionObject)))))>::within(v.fields(), limits)
    }

    proof fn lemma_parse_wire(v: ResponseHeaderView, rest: Seq<u8>, limits: DecodingLimits) {
        <(DateTime, (u32, (StatusCode, (DiagnosticInfo, (Option<Vec<UAString>>, ExtensionObject)))))>::lemma_parse_wire(v.fields(), rest, limits);
    }

    proof fn lemma_parse_truncated(v: ResponseHeaderView, k: int, limits: DecodingLimits) {
        <(DateTime, (u32, (StatusCode, (DiagnosticInfo, (Option<Vec<UAString>>, ExtensionObject)))))>::lemma_parse_truncated(v.fields(), k, limits);
    }

    proof fn lemma_parse_bound(bytes: Seq<u8>, limits: DecodingLimits) {
        <(DateTime, (u32, (StatusCode, (DiagnosticInfo, (Option<Vec<UAString>>, ExtensionObject)))))>::lemma_parse_bound(bytes, limits);
    }

    fn byte_len(&self) -> (n: usize) {
        let mut size: usize = 0;
        size += self.timestamp.byte_len();
        size += self.request_handle.byte_len();
        size += self.service_result.byte_len();
        size += self.service_diagnostics.byte_len();
        size += byte_len_array(&self.string_table);
        size += self.additional_header.byte_len();
        size
    }

    fn encode(&self, stream: &mut Vec<u8>) -> (r: Result<usize, EncodingError>) {
        let ghost start = stream@;
        let ghost total = Self::wire(self@);
        let ghost t = self@.fields();
        let size: usize = 0;
        let size = put(&self.timestamp, stream, size, Ghost(start), Ghost(total), Ghost(<(u32, (StatusCode, (DiagnosticInfo, (Option<Vec<UAString>>, ExtensionObject))))>::wire(t.1)))?;
        let size = put(&self.request_handle, stream, size, Ghost(start), Ghost(total), Ghost(<(StatusCode, (DiagnosticInfo, (Option<Vec<UAString>>, ExtensionObject)))>::wire(t.1.1)))?;
        let size = put(&self.service_result, stream, size, Ghost(start), Ghost(total), Ghost(<(DiagnosticInfo, (Option<Vec<UAString>>, ExtensionObject))>::wire(t.1.1.1)))?;
        let size = put(&self.service_diagnostics, stream, size, Ghost(start), Ghost(total), Ghost(<(Option<Vec<UAString>>, ExtensionObject)>::wire(t.1.1.1.1)))?;
        let size = put(&self.string_table, stream, size, Ghost(start), Ghost(total), Ghost(ExtensionObject::wire(t.1.1.1.1.1)))?;
        let size = put_last(&self.additional_header, stream, size, Ghost(start), Ghost(total))?;
        Ok(size)
    }

    fn decode(stream: &mut Reader, limits: &DecodingLimits) -> (r: Result<Self, EncodingError>) {
        let ghost start = stream@;
        let ghost taken = 0int;
        assert(start.skip(0) =~= start);
        let ghost unread = stream@;
        let timestamp = get::<DateTime>(stream, limits, Ghost(start), Ghost(taken))?;
        proof {
            taken = taken + DateTime::parse(unread, *limits).unwrap().1;
        }
        let ghost unread = stream@;
        let request_handle = get::<u32>(stream, limits, Ghost(start), Ghost(taken))?;
        proof {
            taken = taken + u32::parse(unread, *limits).unwrap().1;
        }
        let ghost unread = stream@;
        let service_result = get::<StatusCode>(stream, limits, Ghost(start), Ghost(taken))?;
        proof {
            taken = taken + StatusCode::parse(unread, *limits).unwrap().1;
        }
        let ghost unread = stream@;
        let service_diagnostics = get::<DiagnosticInfo>(stream, limits, Ghost(start), Ghost(taken))?;
        proof {
            taken = taken + DiagnosticInfo::parse(unread, *limits).unwrap().1;
        }
        let ghost unread = stream@;
        let string_table = get::<Option<Vec<UAString>>>(stream, limits, Ghost(start), Ghost(taken))?;
        proof {
            taken = taken + <Option<Vec<UAString>>>::parse(unread, *limits).unwrap().1;
        }
        let ghost unread = stream@;
        let additional_header = get::<ExtensionObject>(stream, limits, Ghost(start), Ghost(taken))?;
        proof {
            taken = taken + ExtensionObject::parse(unread, *limits).unwrap().1;
        }
        Ok(ResponseHeader { timestamp, request_handle, service_result, service_diagnostics, string_table, additional_header })
    }
}

impl ResponseHeaderView {
    /// The header that answers a request with the handle `request_handle`
    /// at the time `timestamp` with the outcome `service_result`, and
    /// carries nothing else.
    pub open spec fn answering(
        request_handle: u32,
        timestamp: DateTime,
        service_result: StatusCode,
    ) -> ResponseHeaderView {
        ResponseHeaderView {
            timestamp,
            request_handle,
            service_result,
            service_diagnostics: DiagnosticInfoView::empty(),
            string_table: None,
            additional_header: ExtensionObjectView::null(),
        }
    }
}

impl ResponseHeader {
    /// The header that answers `request_header` at the time `timestamp` with
    /// the outcome `service_result`.
    pub fn new_timestamped_service_result(
        timestamp: DateTime,
        request_header: &RequestHeader,
        service_result: StatusCode,
    ) -> (r: ResponseHeader)
        ensures
            r@ == ResponseHeaderView::answering(
                request_header@.request_handle,
                timestamp,
                service_result,
            ),
    {
        ResponseHeader {
            timestamp,
            request_handle: request_header.request_handle,
            service_result,
            service_diagnostics: DiagnosticInfo::new(),
            string_table: None,
            additional_header: ExtensionObject::null(),
        }
    }

    /// The header that answers `request_header` now with the outcome
    /// `service_result`.
    pub fn new_service_result(request_header: &RequestHeader, service_result: StatusCode) -> (r:
        ResponseHeader)
        ensures
            r@ == ResponseHeaderView::answering(
                request_header@.request_handle,
                r@.timestamp,
                service_result,
            ),
    {
        ResponseHeader::new_timestamped_service_result(
            DateTime::now(),
            request_header,
            service_result,
        )
    }

    /// The header that answers `request_header` now with a good outcome.
    pub fn new_good(request_header: &RequestHeader) -> (r: ResponseHeader)
        ensures
            r@ == ResponseHeaderView::answering(
                request_header@.request_handle,
                r@.timestamp,
                StatusCode(GOOD),
            ),
    {
        ResponseHeader::new_service_result(request_header, StatusCode(GOOD))
    }
}

} // verus!
