//! The subscription service: parking publish requests and republishing.

use crate::comms::message::{SupportedMessage, SupportedMessageView};
use crate::date_time::DateTime;
use crate::service_types::monitored_item_messages::PublishRequest;
use crate::service_types::request_header::RequestHeader;
use crate::service_types::response_header::{ResponseHeader, ResponseHeaderView};
use crate::service_types::secure_channel_messages::ServiceFault;
use crate::service_types::session_messages::{
    RepublishRequest, RepublishRequestView, RepublishResponse, RepublishResponseView,
};
use crate::services::Service;
use crate::session::{Session, SessionView};
use crate::status_codes::{
    StatusCode, BAD_MESSAGE_NOT_AVAILABLE, BAD_SUBSCRIPTION_ID_INVALID, GOOD,
};
use crate::subscriptions::subscription::message_position;
use crate::subscriptions::subscriptions::{
    after_publish_request, subscription_position, SubscriptionsView,
};
use vstd::prelude::*;

verus! {

/// What a request for a notification message is answered with at the time
/// `now`: the message that the subscription keeps under the sequence
/// number; a fault with `BAD_SUBSCRIPTION_ID_INVALID` where there is no such
/// subscription, and with `BAD_MESSAGE_NOT_AVAILABLE` where it keeps no such
/// message.
pub open spec fn republish_outcome(
    subscriptions: SubscriptionsView,
    request: RepublishRequestView,
    now: DateTime,
) -> SupportedMessageView {
    let handle = request.request_header.request_handle;
    match subscription_position(subscriptions.subscriptions, request.subscription_id) {
        None => SupportedMessageView::fault(handle, now, StatusCode(BAD_SUBSCRIPTION_ID_INVALID)),
        Some(p) => match message_position(
            subscriptions.subscriptions[p].retransmission_queue,
            request.retransmit_sequence_number,
        ) {
            None => SupportedMessageView::fault(
                handle,
                now,
                StatusCode(BAD_MESSAGE_NOT_AVAILABLE),
            ),
            Some(i) => SupportedMessageView::RepublishResponse(
                RepublishResponseView {
                    response_header: ResponseHeaderView::answering(handle, now, StatusCode(GOOD)),
                    notification_message: subscriptions.subscriptions[p].retransmission_queue[i],
                },
            ),
        },
    }
}

/// Parks publish requests and sends notification messages again.
pub struct SubscriptionService {}

impl Service for SubscriptionService {
    fn service_fault(&self, request_header: &RequestHeader, service_result: StatusCode) -> (r:
        SupportedMessage) {
        ServiceFault::new_supported_message(request_header, service_result)
    }
}

impl SubscriptionService {
    /// A new `SubscriptionService`.
    pub fn new() -> SubscriptionService {
        SubscriptionService {  }
    }

    /// Takes a publish request of the session: its acknowledgements are
    /// worked off, and it waits for a message to send. The response comes
    /// with a tick of a subscription.
    pub fn publish(&self, session: &mut Session, request: PublishRequest)
        ensures
            final(session)@ == (SessionView {
                subscriptions: after_publish_request(old(session)@.subscriptions, request@),
                ..old(session)@
            }),
    {
        session.subscriptions_mut().enqueue_publish_request(request);
    }

    /// Answers a request for a notification message at the time `now`.
    pub fn republish_at(&self, session: &Session, request: &RepublishRequest, now: DateTime) -> (r:
        SupportedMessage)
        ensures
            r@ == republish_outcome(session@.subscriptions, request@, now),
    {
        match session.subscriptions().republish(
            request.subscription_id,
            request.retransmit_sequence_number,
        ) {
            Ok(notification_message) => SupportedMessage::RepublishResponse(
                RepublishResponse {
                    response_header: ResponseHeader::new_timestamped_service_result(
                        now,
                        &request.request_header,
                        StatusCode(GOOD),
                    ),
                    notification_message,
                },
            ),
            Err(status) => ServiceFault::new_timestamped(now, &request.request_header, status),
        }
    }
}

} // verus!
