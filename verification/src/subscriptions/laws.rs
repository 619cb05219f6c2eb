//! What holds of subscriptions, whatever their items and the address space.

use crate::address_space::AddressSpaceView;
use crate::date_time::DateTime;
use crate::service_types::notification_message::NotificationMessageView;
use crate::subscriptions::subscription::{
    any_queued, counted, message_position, message_position_from, next_sequence_number,
    subscription_tick, ticked_items, SubscriptionState, SubscriptionView, TickActionView,
};
use vstd::prelude::*;

verus! {

/// Whether a tick finds something to send: publishing is enabled and an
/// item has a notification queued after the items have ticked.
pub open spec fn has_to_send(
    subscription: SubscriptionView,
    space: AddressSpaceView,
    now: DateTime,
    in_band: Seq<bool>,
) -> bool {
    subscription.publishing_enabled && any_queued(
        ticked_items(subscription.monitored_items, space, now, in_band),
    )
}

/// Sequence numbers start at 1, go up by one, and start again at 1 after
/// the largest: no message has the number 0.
pub proof fn lemma_sequence_numbers(last: u32)
    ensures
        next_sequence_number(last) >= 1,
        last < u32::MAX ==> next_sequence_number(last) == last + 1,
        last == u32::MAX ==> next_sequence_number(last) == 1,
        next_sequence_number(0) == 1,
{
}

/// With a publish request waiting and nothing to send, a tick counts up to
/// the keep-alive; the tick at which the count reaches its maximum sends a
/// keep-alive message, which carries no data and uses no sequence number,
/// and starts the count again.
pub proof fn lemma_keep_alive(
    subscription: SubscriptionView,
    space: AddressSpaceView,
    now: DateTime,
    in_band: Seq<bool>,
)
    requires
        subscription.state != SubscriptionState::Closed,
        !has_to_send(subscription, space, now, in_band),
    ensures
        ({
            let outcome = subscription_tick(subscription, space, now, true, in_band);
            let count = counted(subscription.keep_alive_counter);
            &&& outcome.1.last_sequence_number == subscription.last_sequence_number
            &&& outcome.1.retransmission_queue == subscription.retransmission_queue
            &&& count < subscription.max_keep_alive_count ==> outcome.0 == TickActionView::Nothing
                && outcome.1.keep_alive_counter == count
            &&& count >= subscription.max_keep_alive_count ==> outcome.0
                == TickActionView::KeepAlive(
                NotificationMessageView {
                    sequence_number: next_sequence_number(subscription.last_sequence_number),
                    publish_time: now,
                    notification_data: None,
                },
            ) && outcome.1.keep_alive_counter == 0 && outcome.1.state
                == SubscriptionState::KeepAlive
        }),
{
}

/// A subscription that has something to send and a publish request to send
/// it with sends a message with the next sequence number and keeps it.
pub proof fn lemma_publish_numbers_and_keeps(
    subscription: SubscriptionView,
    space: AddressSpaceView,
    now: DateTime,
    in_band: Seq<bool>,
)
    requires
        subscription.state != SubscriptionState::Closed,
        has_to_send(subscription, space, now, in_band),
    ensures
        ({
            let outcome = subscription_tick(subscription, space, now, true, in_band);
            &&& outcome.0 matches TickActionView::Publish(message, _) && message.sequence_number
                == next_sequence_number(subscription.last_sequence_number)
                && outcome.1.retransmission_queue == subscription.retransmission_queue.push(
                message,
            ) && outcome.1.last_sequence_number == message.sequence_number
            &&& outcome.1.state == SubscriptionState::Normal
            &&& outcome.1.keep_alive_counter == 0
        }),
{
}

/// A subscription that has something to send and no publish request to
/// send it with is late, and sends nothing.
pub proof fn lemma_late_without_publish_request(
    subscription: SubscriptionView,
    space: AddressSpaceView,
    now: DateTime,
    in_band: Seq<bool>,
)
    requires
        subscription.state != SubscriptionState::Closed,
        has_to_send(subscription, space, now, in_band),
        counted(subscription.lifetime_counter) < subscription.lifetime_count,
    ensures
        ({
            let outcome = subscription_tick(subscription, space, now, false, in_band);
            outcome.0 == TickActionView::Nothing && outcome.1.state == SubscriptionState::Late
        }),
{
}

/// A message that is added behind messages none of which has its sequence
/// number is the one that is found under that number.
pub proof fn lemma_kept_message_is_found(
    messages: Seq<NotificationMessageView>,
    message: NotificationMessageView,
    from: int,
)
    requires
        0 <= from <= messages.len(),
        forall|i: int|
            0 <= i < messages.len() ==> (#[trigger] messages[i]).sequence_number
                != message.sequence_number,
    ensures
        message_position_from(messages.push(message), message.sequence_number, from) == Some(
            messages.len() as int,
        ),
    decreases messages.len() - from,
{
    if from < messages.len() {
        lemma_kept_message_is_found(messages, message, from + 1);
    }
}

/// No message is found under a sequence number that none of the messages
/// has.
pub proof fn lemma_unknown_message_is_not_found(
    messages: Seq<NotificationMessageView>,
    sequence_number: u32,
    from: int,
)
    requires
        0 <= from,
        forall|i: int|
            0 <= i < messages.len() ==> (#[trigger] messages[i]).sequence_number
                != sequence_number,
    ensures
        message_position_from(messages, sequence_number, from) is None,
    decreases messages.len() - from,
{
    if from < messages.len() {
        lemma_unknown_message_is_not_found(messages, sequence_number, from + 1);
    }
}

/// After a subscription has sent a message, asking for the message with
/// its sequence number again gives that message, where no older message
/// with the same number is kept; asking for a number that no kept message
/// has gives nothing.
pub proof fn lemma_republish(
    subscription: SubscriptionView,
    space: AddressSpaceView,
    now: DateTime,
    in_band: Seq<bool>,
    other: u32,
)
    requires
        subscription.state != SubscriptionState::Closed,
        has_to_send(subscription, space, now, in_band),
        forall|i: int|
            0 <= i < subscription.retransmission_queue.len() ==> (
            #[trigger] subscription.retransmission_queue[i]).sequence_number
                != next_sequence_number(subscription.last_sequence_number) && (
            subscription.retransmission_queue[i]).sequence_number != other,
        other != next_sequence_number(subscription.last_sequence_number),
    ensures
        ({
            let outcome = subscription_tick(subscription, space, now, true, in_band);
            let kept = outcome.1.retransmission_queue;
            &&& outcome.0 matches TickActionView::Publish(message, _) && message_position(
                kept,
                message.sequence_number,
            ) == Some(kept.len() - 1) && kept[kept.len() - 1] == message
            &&& message_position(kept, other) is None
        }),
{
    let outcome = subscription_tick(subscription, space, now, true, in_band);
    lemma_publish_numbers_and_keeps(subscription, space, now, in_band);
    match outcome.0 {
        TickActionView::Publish(message, _) => {
            lemma_kept_message_is_found(subscription.retransmission_queue, message, 0);
            lemma_unknown_message_is_not_found(outcome.1.retransmission_queue, other, 0);
        },
        _ => {},
    }
}

} // verus!
