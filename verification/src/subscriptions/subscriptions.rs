//! The subscriptions of a session: acknowledging and parking publish
//! requests, pairing them with messages, and republishing.

use crate::address_space::{AddressSpace, AddressSpaceView};
use crate::date_time::DateTime;
use crate::service_types::monitored_item_messages::{
    PublishRequest, PublishRequestView, SubscriptionAcknowledgement,
    SubscriptionAcknowledgementView,
};
use crate::service_types::notification_message::{NotificationMessage, NotificationMessageView};
use crate::service_types::publish_response::{PublishResponse, PublishResponseView};
use crate::service_types::response_header::{ResponseHeader, ResponseHeaderView};
use crate::status_codes::{StatusCode, BAD_SUBSCRIPTION_ID_INVALID, GOOD};
use crate::subscriptions::subscription::{
    message_position, message_view, subscription_tick, Subscription, SubscriptionView, TickAction,
    TickActionView,
};
use vstd::prelude::*;

verus! {

/// A publish request that waits for a message, with the results of its acknowledgements.
#[derive(Debug, PartialEq, Clone)]
pub struct PublishRequestEntry {
    pub request: PublishRequest,
    pub results: Option<Vec<StatusCode>>,
}

/// The value that a `PublishRequestEntry` stands for.
pub struct PublishRequestEntryView {
    pub request: PublishRequestView,
    pub results: Option<Seq<StatusCode>>,
}

impl DeepView for PublishRequestEntry {
    type V = PublishRequestEntryView;

    open spec fn deep_view(&self) -> PublishRequestEntryView {
        PublishRequestEntryView {
            request: self.request.deep_view(),
            results: self.results.deep_view(),
        }
    }
}

impl View for PublishRequestEntry {
    type V = PublishRequestEntryView;

    open spec fn view(&self) -> PublishRequestEntryView {
        self.deep_view()
    }
}

/// The subscriptions of a session and the publish requests that wait for their messages.
#[derive(Debug, PartialEq, Clone)]
pub struct Subscriptions {
    /// The subscriptions, in the order in which they were made.
    pub subscriptions: Vec<Subscription>,
    /// The publish requests that wait, oldest first.
    pub publish_request_queue: Vec<PublishRequestEntry>,
}

/// The value that a `Subscriptions` stands for.
pub struct SubscriptionsView {
    pub subscriptions: Seq<SubscriptionView>,
    pub publish_request_queue: Seq<PublishRequestEntryView>,
}

impl DeepView for Subscriptions {
    type V = SubscriptionsView;

    open spec fn deep_view(&self) -> SubscriptionsView {
        SubscriptionsView {
            subscriptions: self.subscriptions.deep_view(),
            publish_request_queue: self.publish_request_queue.deep_view(),
        }
    }
}

impl View for Subscriptions {
    type V = SubscriptionsView;

    open spec fn view(&self) -> SubscriptionsView {
        self.deep_view()
    }
}

/// The position of the first of the subscriptions from `from` on that has
/// the id `id`.
pub open spec fn subscription_position_from(
    subscriptions: Seq<SubscriptionView>,
    id: u32,
    from: int,
) -> Option<int>
    decreases subscriptions.len() - from,
{
    if from < 0 || from >= subscriptions.len() {
        None
    } else if subscriptions[from].subscription_id == id {
        Some(from)
    } else {
        subscription_position_from(subscriptions, id, from + 1)
    }
}

/// The position of the first of `subscriptions` that has the id `id`.
pub open spec fn subscription_position(subscriptions: Seq<SubscriptionView>, id: u32) -> Option<int> {
    subscription_position_from(subscriptions, id, 0)
}

/// Where a subscription is found, its position is one of the sequence.
pub proof fn lemma_subscription_position_from(
    subscriptions: Seq<SubscriptionView>,
    id: u32,
    from: int,
)
    requires
        0 <= from,
    ensures
        subscription_position_from(subscriptions, id, from) matches Some(i) ==> from <= i
            < subscriptions.len() && subscriptions[i].subscription_id == id,
    decreases subscriptions.len() - from,
{
    if from < subscriptions.len() && subscriptions[from].subscription_id != id {
        lemma_subscription_position_from(subscriptions, id, from + 1);
    }
}

/// The status that answers an acknowledgement: good where the subscription
/// keeps the message, `BAD_SEQUENCE_NUMBER_UNKNOWN` where it does not, and
/// `BAD_SUBSCRIPTION_ID_INVALID` where there is no such subscription.
pub open spec fn acknowledgement_result(
    subscriptions: Seq<SubscriptionView>,
    acknowledgement: SubscriptionAcknowledgementView,
) -> StatusCode {
    match subscription_position(subscriptions, acknowledgement.subscription_id) {
        Some(p) => match message_position(
            subscriptions[p].retransmission_queue,
            acknowledgement.sequence_number,
        ) {
            Some(_) => StatusCode(GOOD),
            None => StatusCode(crate::status_codes::BAD_SEQUENCE_NUMBER_UNKNOWN),
        },
        None => StatusCode(BAD_SUBSCRIPTION_ID_INVALID),
    }
}

/// The subscriptions after an acknowledgement: the message that it names
/// is no longer kept.
pub open spec fn acknowledged(
    subscriptions: Seq<SubscriptionView>,
    acknowledgement: SubscriptionAcknowledgementView,
) -> Seq<SubscriptionView> {
    match subscription_position(subscriptions, acknowledgement.subscription_id) {
        Some(p) => match message_position(
            subscriptions[p].retransmission_queue,
            acknowledgement.sequence_number,
        ) {
            Some(i) => subscriptions.update(
                p,
                SubscriptionView {
                    retransmission_queue: subscriptions[p].retransmission_queue.remove(i),
                    ..subscriptions[p]
                },
            ),
            None => subscriptions,
        },
        None => subscriptions,
    }
}

/// The subscriptions after the first `n` of `acknowledgements`.
pub open spec fn acknowledged_upto(
    subscriptions: Seq<SubscriptionView>,
    acknowledgements: Seq<SubscriptionAcknowledgementView>,
    n: int,
) -> Seq<SubscriptionView>
    decreases n,
{
    if n <= 0 {
        subscriptions
    } else {
        acknowledged(
            acknowledged_upto(subscriptions, acknowledgements, n - 1),
            acknowledgements[n - 1],
        )
    }
}

/// The statuses that answer `acknowledgements`, each judged after those
/// before it.
pub open spec fn acknowledgement_results(
    subscriptions: Seq<SubscriptionView>,
    acknowledgements: Seq<SubscriptionAcknowledgementView>,
) -> Seq<StatusCode> {
    Seq::new(
        acknowledgements.len(),
        |i: int|
            acknowledgement_result(
                acknowledged_upto(subscriptions, acknowledgements, i),
                acknowledgements[i],
            ),
    )
}

/// The subscriptions and the waiting publish requests after a publish
/// request has arrived: its acknowledgements are worked off, and it waits
/// behind the others with their results.
pub open spec fn after_publish_request(set: SubscriptionsView, request: PublishRequestView) -> SubscriptionsView {
    match request.subscription_acknowledgements {
        None => SubscriptionsView {
            publish_request_queue: set.publish_request_queue.push(
                PublishRequestEntryView { request, results: None },
            ),
            ..set
        },
        Some(acknowledgements) => SubscriptionsView {
            subscriptions: acknowledged_upto(
                set.subscriptions,
                acknowledgements,
                acknowledgements.len() as int,
            ),
            publish_request_queue: set.publish_request_queue.push(
                PublishRequestEntryView {
                    request,
                    results: Some(acknowledgement_results(set.subscriptions, acknowledgements)),
                },
            ),
        },
    }
}

/// The sequence numbers of the messages that a subscription keeps.
pub open spec fn kept_sequence_numbers(subscription: SubscriptionView) -> Seq<u32> {
    Seq::new(
        subscription.retransmission_queue.len(),
        |i: int| subscription.retransmission_queue[i].sequence_number,
    )
}

/// The response that sends `message` of `subscription` with the publish
/// request `entry` at the time `now`.
pub open spec fn publish_response(
    entry: PublishRequestEntryView,
    subscription: SubscriptionView,
    message: NotificationMessageView,
    more_notifications: bool,
    now: DateTime,
) -> PublishResponseView {
    PublishResponseView {
        response_header: ResponseHeaderView::answering(
            entry.request.request_header.request_handle,
            now,
            StatusCode(GOOD),
        ),
        subscription_id: subscription.subscription_id,
        available_sequence_numbers: Some(kept_sequence_numbers(subscription)),
        more_notifications,
        notification_message: message,
        results: entry.results,
        diagnostic_infos: None,
    }
}

/// Whether the subscription at position `i` is told of its item at
/// position `j` that the value lies within the deadband.
pub open spec fn band_flags(in_band: Seq<Seq<bool>>, i: int) -> Seq<bool> {
    if 0 <= i < in_band.len() {
        in_band[i]
    } else {
        Seq::empty()
    }
}

/// The subscriptions and the waiting publish requests after the
/// subscription at position `i` has ticked: a message that it sends takes
/// the oldest publish request.
pub open spec fn after_tick_of(
    set: SubscriptionsView,
    i: int,
    space: AddressSpaceView,
    now: DateTime,
    in_band: Seq<bool>,
) -> SubscriptionsView {
    let outcome = subscription_tick(
        set.subscriptions[i],
        space,
        now,
        set.publish_request_queue.len() > 0,
        in_band,
    );
    SubscriptionsView {
        subscriptions: set.subscriptions.update(i, outcome.1),
        publish_request_queue: match outcome.0 {
            TickActionView::Publish(_, _) => set.publish_request_queue.skip(1),
            TickActionView::KeepAlive(_) => set.publish_request_queue.skip(1),
            _ => set.publish_request_queue,
        },
    }
}

/// The response that the tick of the subscription at position `i` sends,
/// where it sends one.
pub open spec fn response_of_tick(
    set: SubscriptionsView,
    i: int,
    space: AddressSpaceView,
    now: DateTime,
    in_band: Seq<bool>,
) -> Option<PublishResponseView> {
    let outcome = subscription_tick(
        set.subscriptions[i],
        space,
        now,
        set.publish_request_queue.len() > 0,
        in_band,
    );
    match outcome.0 {
        TickActionView::Publish(message, more) => Some(
            publish_response(set.publish_request_queue[0], outcome.1, message, more, now),
        ),
        TickActionView::KeepAlive(message) => Some(
            publish_response(set.publish_request_queue[0], outcome.1, message, false, now),
        ),
        _ => None,
    }
}

/// The subscriptions and the waiting publish requests after the first `n`
/// subscriptions have ticked, one after the other.
pub open spec fn ticked_upto(
    set: SubscriptionsView,
    space: AddressSpaceView,
    now: DateTime,
    in_band: Seq<Seq<bool>>,
    n: int,
) -> SubscriptionsView
    decreases n,
{
    if n <= 0 {
        set
    } else {
        after_tick_of(
            ticked_upto(set, space, now, in_band, n - 1),
            n - 1,
            space,
            now,
            band_flags(in_band, n - 1),
        )
    }
}

/// The responses that the ticks of the first `n` subscriptions send, in
/// the order of the subscriptions.
pub open spec fn responses_upto(
    set: SubscriptionsView,
    space: AddressSpaceView,
    now: DateTime,
    in_band: Seq<Seq<bool>>,
    n: int,
) -> Seq<PublishResponseView>
    decreases n,
{
    if n <= 0 {
        Seq::empty()
    } else {
        let before = responses_upto(set, space, now, in_band, n - 1);
        match response_of_tick(
            ticked_upto(set, space, now, in_band, n - 1),
            n - 1,
            space,
            now,
            band_flags(in_band, n - 1),
        ) {
            Some(response) => before.push(response),
            None => before,
        }
    }
}

/// Ticking subscriptions one after the other leaves their number as it is.
pub proof fn lemma_ticked_upto_len(
    set: SubscriptionsView,
    space: AddressSpaceView,
    now: DateTime,
    in_band: Seq<Seq<bool>>,
    n: int,
)
    requires
        n <= set.subscriptions.len(),
    ensures
        ticked_upto(set, space, now, in_band, n).subscriptions.len() == set.subscriptions.len(),
        forall|j: int|
            n <= j < set.subscriptions.len() && 0 <= j ==> (#[trigger] ticked_upto(
                set,
                space,
                now,
                in_band,
                n,
            ).subscriptions[j]) == set.subscriptions[j],
    decreases n,
{
    if n > 0 {
        lemma_ticked_upto_len(set, space, now, in_band, n - 1);
    }
}

impl Subscriptions {
    /// No subscriptions and no publish requests.
    pub fn new() -> (r: Subscriptions)
        ensures
            r@ == (SubscriptionsView {
                subscriptions: Seq::empty(),
                publish_request_queue: Seq::empty(),
            }),
    {
        let r = Subscriptions { subscriptions: Vec::new(), publish_request_queue: Vec::new() };
        assert(r@.subscriptions =~= Seq::empty());
        assert(r@.publish_request_queue =~= Seq::empty());
        r
    }

    /// Takes `subscription` behind the others.
    pub fn insert(&mut self, subscription: Subscription)
        ensures
            final(self)@ == (SubscriptionsView {
                subscriptions: old(self)@.subscriptions.push(subscription@),
                ..old(self)@
            }),
    {
        let ghost before = self@;
        self.subscriptions.push(subscription);
        assert(self@.subscriptions =~= before.subscriptions.push(subscription@));
        assert(self@.publish_request_queue =~= before.publish_request_queue);
    }

    /// The position of the first subscription with the id `subscription_id`.
    fn position(&self, subscription_id: u32) -> (r: Option<usize>)
        ensures
            match r {
                Some(p) => p < self.subscriptions.len() && p < self@.subscriptions.len()
                    && subscription_position(self@.subscriptions, subscription_id) == Some(
                    p as int,
                ),
                None => subscription_position(self@.subscriptions, subscription_id) is None,
            },
    {
        let mut i: usize = 0;
        while i < self.subscriptions.len()
            invariant
                i <= self.subscriptions.len(),
                self@.subscriptions.len() == self.subscriptions.len(),
                subscription_position(self@.subscriptions, subscription_id)
                    == subscription_position_from(self@.subscriptions, subscription_id, i as int),
            decreases self.subscriptions.len() - i,
        {
            assert(self.subscriptions[i as int]@ == self@.subscriptions[i as int]);
            if self.subscriptions[i].subscription_id == subscription_id {
                return Some(i);
            }
            i = i + 1;
        }
        None
    }

    /// Takes the first subscription with the id `subscription_id` out and
    /// returns it.
    pub fn remove(&mut self, subscription_id: u32) -> (r: Option<Subscription>)
        ensures
            match subscription_position(old(self)@.subscriptions, subscription_id) {
                Some(p) => r matches Some(subscription) && subscription@ == old(self)@.subscriptions[p] && final(self)@ == (SubscriptionsView {
                    subscriptions: old(self)@.subscriptions.remove(p),
                    ..old(self)@
                }),
                None => r is None && final(self)@ == old(self)@,
            },
    {
        match self.position(subscription_id) {
            Some(p) => {
                let ghost before = self@;
                assert(self.subscriptions[p as int]@ == before.subscriptions[p as int]);
                let subscription = self.subscriptions.remove(p);
                assert(self@.subscriptions =~= before.subscriptions.remove(p as int));
                assert(self@.publish_request_queue =~= before.publish_request_queue);
                Some(subscription)
            },
            None => None,
        }
    }

    /// Works one acknowledgement off and returns the status that answers
    /// it.
    pub fn acknowledge(&mut self, acknowledgement: &SubscriptionAcknowledgement) -> (r: StatusCode)
        ensures
            r == acknowledgement_result(old(self)@.subscriptions, acknowledgement@),
            final(self)@ == (SubscriptionsView {
                subscriptions: acknowledged(old(self)@.subscriptions, acknowledgement@),
                ..old(self)@
            }),
    {
        match self.position(acknowledgement.subscription_id) {
            Some(p) => {
                let ghost before = self@;
                assert(self.subscriptions[p as int]@ == before.subscriptions[p as int]);
                let subscription = &mut self.subscriptions[p];
                let status = subscription.acknowledge(acknowledgement.sequence_number);
                proof {
                    assert(self.subscriptions[p as int]@ == self@.subscriptions[p as int]);
                    assert forall|j: int| 0 <= j < before.subscriptions.len() && j != p implies (
                    #[trigger] self@.subscriptions[j]) == before.subscriptions[j] by {
                        assert(self.subscriptions[j]@ == self@.subscriptions[j]);
                    }
                    assert(self@.subscriptions =~= acknowledged(
                        before.subscriptions,
                        acknowledgement@,
                    ));
                    assert(self@.publish_request_queue =~= before.publish_request_queue);
                }
                status
            },
            None => StatusCode(BAD_SUBSCRIPTION_ID_INVALID),
        }
    }

    /// Takes a publish request: works its acknowledgements off in their
    /// order and lets the request wait behind the others, with the statuses
    /// that answer the acknowledgements.
    pub fn enqueue_publish_request(&mut self, request: PublishRequest)
        ensures
            final(self)@ == after_publish_request(old(self)@, request@),
    {
        let ghost before = self@;
        let results = match &request.subscription_acknowledgements {
            None => None,
            Some(acknowledgements) => {
                let ghost list = acknowledgements.deep_view();
                let mut results: Vec<StatusCode> = Vec::new();
                let mut i: usize = 0;
                while i < acknowledgements.len()
                    invariant
                        i <= acknowledgements.len(),
                        list == acknowledgements.deep_view(),
                        list.len() == acknowledgements.len(),
                        before == old(self)@,
                        self@ == (SubscriptionsView {
                            subscriptions: acknowledged_upto(before.subscriptions, list, i as int),
                            ..before
                        }),
                        results@.len() == i,
                        forall|j: int|
                            0 <= j < i ==> results@[j] == acknowledgement_result(
                                acknowledged_upto(before.subscriptions, list, j),
                                list[j],
                            ),
                    decreases acknowledgements.len() - i,
                {
                    assert(acknowledgements[i as int]@ == list[i as int]);
                    let status = self.acknowledge(&acknowledgements[i]);
                    results.push(status);
                    i = i + 1;
                }
                assert(results@ =~= acknowledgement_results(before.subscriptions, list));
                assert(results.deep_view() =~= results@);
                Some(results)
            },
        };
        let ghost acknowledged = self@;
        let entry = PublishRequestEntry { request, results };
        self.publish_request_queue.push(entry);
        proof {
            assert(self@.publish_request_queue =~= before.publish_request_queue.push(entry@));
            assert(self@.subscriptions =~= acknowledged.subscriptions);
        }
    }

    /// The message of the subscription `subscription_id` with the sequence
    /// number `sequence_number` that is kept for retransmission. Fails with
    /// `BAD_SUBSCRIPTION_ID_INVALID` where there is no such subscription,
    /// and with `BAD_MESSAGE_NOT_AVAILABLE` where it keeps no such message.
    pub fn republish(&self, subscription_id: u32, sequence_number: u32) -> (r: Result<
        NotificationMessage,
        StatusCode,
    >)
        ensures
            message_view(r) == match subscription_position(self@.subscriptions, subscription_id) {
                None => Err::<NotificationMessageView, StatusCode>(
                    StatusCode(BAD_SUBSCRIPTION_ID_INVALID),
                ),
                Some(p) => match message_position(
                    self@.subscriptions[p].retransmission_queue,
                    sequence_number,
                ) {
                    Some(i) => Ok::<NotificationMessageView, StatusCode>(
                        self@.subscriptions[p].retransmission_queue[i],
                    ),
                    None => Err::<NotificationMessageView, StatusCode>(
                        StatusCode(crate::status_codes::BAD_MESSAGE_NOT_AVAILABLE),
                    ),
                },
            },
    {
        match self.position(subscription_id) {
            Some(p) => {
                assert(self.subscriptions[p as int]@ == self@.subscriptions[p as int]);
                self.subscriptions[p].republish(sequence_number)
            },
            None => Err(StatusCode(BAD_SUBSCRIPTION_ID_INVALID)),
        }
    }

    /// Lets the subscription at position `i` tick, and returns the
    /// response to send, where there is one.
    fn tick_one(&mut self, i: usize, address_space: &AddressSpace, now: &DateTime, in_band: &[bool]) -> (r:
        Option<PublishResponse>)
        requires
            i < old(self)@.subscriptions.len(),
        ensures
            final(self)@ == after_tick_of(old(self)@, i as int, address_space@, *now, in_band@),
            r.deep_view() == response_of_tick(old(self)@, i as int, address_space@, *now, in_band@),
    {
        let ghost before = self@;
        let parked = self.publish_request_queue.len() > 0;
        assert(self.subscriptions[i as int]@ == before.subscriptions[i as int]);
        let subscription = &mut self.subscriptions[i];
        let action = subscription.tick(address_space, now, parked, in_band);
        let numbers = subscription.available_sequence_numbers();
        let subscription_id = subscription.subscription_id;
        proof {
            assert(self.subscriptions[i as int]@ == self@.subscriptions[i as int]);
            assert forall|j: int| 0 <= j < before.subscriptions.len() && j != i implies (
            #[trigger] self@.subscriptions[j]) == before.subscriptions[j] by {
                assert(self.subscriptions[j]@ == self@.subscriptions[j]);
            }
            assert(self@.subscriptions =~= before.subscriptions.update(
                i as int,
                self@.subscriptions[i as int],
            ));
            assert(self@.publish_request_queue =~= before.publish_request_queue);
            assert(numbers.deep_view() =~= kept_sequence_numbers(self@.subscriptions[i as int]));
        }
        let ghost ticked = self@;
        let sending = match action {
            TickAction::Publish(message, more) => Some((message, more)),
            TickAction::KeepAlive(message) => Some((message, false)),
            _ => None,
        };
        match sending {
            Some((message, more)) => {
                assert(self.publish_request_queue[0]@ == ticked.publish_request_queue[0]);
                let entry = self.publish_request_queue.remove(0);
                let response = PublishResponse {
                    response_header: ResponseHeader::new_timestamped_service_result(
                        *now,
                        &entry.request.request_header,
                        StatusCode(GOOD),
                    ),
                    subscription_id,
                    available_sequence_numbers: Some(numbers),
                    more_notifications: more,
                    notification_message: message,
                    results: entry.results,
                    diagnostic_infos: None,
                };
                proof {
                    assert(self@.publish_request_queue =~= ticked.publish_request_queue.skip(1));
                    assert(self@.subscriptions =~= ticked.subscriptions);
                }
                Some(response)
            },
            None => None,
        }
    }

    /// Lets each subscription tick at the time `now`, one after the other,
    /// and returns the responses to send: each message takes the oldest
    /// publish request that waits. `in_band` says of each subscription, by
    /// its position, and of each of its items, by its position, whether
    /// the value lies within the deadband.
    pub fn tick(&mut self, address_space: &AddressSpace, now: &DateTime, in_band: &[Vec<bool>]) -> (r:
        Vec<PublishResponse>)
        ensures
            final(self)@ == ticked_upto(
                old(self)@,
                address_space@,
                *now,
                in_band.deep_view(),
                old(self)@.subscriptions.len() as int,
            ),
            r.deep_view() == responses_upto(
                old(self)@,
                address_space@,
                *now,
                in_band.deep_view(),
                old(self)@.subscriptions.len() as int,
            ),
    {
        let ghost set = self@;
        let ghost bands = in_band.deep_view();
        let mut responses: Vec<PublishResponse> = Vec::new();
        let mut i: usize = 0;
        let empty: Vec<bool> = Vec::new();
        assert(responses.deep_view() =~= responses_upto(set, address_space@, *now, bands, 0));
        while i < self.subscriptions.len()
            invariant
                i <= self.subscriptions.len(),
                set == old(self)@,
                bands == in_band.deep_view(),
                empty@.len() == 0,
                self.subscriptions.len() == set.subscriptions.len(),
                self@.subscriptions.len() == set.subscriptions.len(),
                self@ == ticked_upto(set, address_space@, *now, bands, i as int),
                responses.deep_view() == responses_upto(set, address_space@, *now, bands, i as int),
            decreases self.subscriptions.len() - i,
        {
            let ghost sent = responses.deep_view();
            let flags = if i < in_band.len() {
                assert(in_band[i as int].deep_view() == bands[i as int]);
                in_band[i].as_slice()
            } else {
                empty.as_slice()
            };
            assert(flags@ =~= band_flags(bands, i as int)) by {
                if i < in_band.len() {
                    assert(in_band[i as int].deep_view() =~= in_band[i as int]@);
                }
            }
            match self.tick_one(i, address_space, now, flags) {
                Some(response) => {
                    responses.push(response);
                    assert(responses.deep_view() =~= sent.push(response@));
                },
                None => {},
            }
            proof {
                lemma_ticked_upto_len(set, address_space@, *now, bands, i + 1);
            }
            i = i + 1;
        }
        responses
    }
}

} // verus!
