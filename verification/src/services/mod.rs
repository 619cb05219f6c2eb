//! The services that answer requests.

use crate::comms::message::SupportedMessage;
use crate::service_types::request_header::RequestHeader;
use crate::status_codes::StatusCode;
use vstd::prelude::*;

pub mod attribute;
pub mod discovery;
pub mod session;
pub mod subscription;
pub mod view;
pub mod view_laws;

verus! {

/// What all services share.
pub trait Service {
    /// The service fault that answers `request_header` now with the outcome
    /// `service_result`.
    fn service_fault(&self, request_header: &RequestHeader, service_result: StatusCode) -> (r:
        SupportedMessage)
        ensures
            r@.is_fault(request_header@.request_handle, service_result),
    ;
}

} // verus!
