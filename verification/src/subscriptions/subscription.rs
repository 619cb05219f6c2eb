//! Subscriptions: ticking the monitored items, numbering and keeping the
//! notification messages, keep-alive and lifetime.

use crate::address_space::{AddressSpace, AddressSpaceView};
use crate::basic_types::{ExtensionObject, ExtensionObjectView};
use crate::date_time::DateTime;
use crate::service_types::message_info::ObjectId;
use crate::service_types::monitored_item_messages::{
    DataChangeNotification, DataChangeNotificationView, MonitoredItemCreateRequest,
    MonitoredItemCreateRequestView, MonitoredItemNotification, MonitoredItemNotificationView,
};
use crate::service_types::notification_message::{NotificationMessage, NotificationMessageView};
use crate::node_id::NodeIdView;
use crate::status_codes::{
    StatusCode, BAD_MESSAGE_NOT_AVAILABLE, BAD_NODE_ID_UNKNOWN, BAD_SEQUENCE_NUMBER_UNKNOWN,
    BAD_TIMEOUT, GOOD,
};
use crate::subscriptions::monitored_item::{
    filter_of, fresh_item, tick_outcome, MonitoredItem, MonitoredItemView,
};
use vstd::prelude::*;

verus! {

/// Where a subscription stands.
#[derive(Clone, Copy, Debug, PartialEq, Eq, Hash, Structural)]
pub enum SubscriptionState {
    /// Made, and not yet ticked.
    Creating,
    /// Publishing as notifications come.
    Normal,
    /// With something to send, and no publish request to send it with.
    Late,
    /// With nothing to send but keep-alive messages.
    KeepAlive,
    /// Ended.
    Closed,
}

impl DeepView for SubscriptionState {
    type V = SubscriptionState;

    open spec fn deep_view(&self) -> SubscriptionState {
        *self
    }
}

/// Publishes what its monitored items report.
#[derive(Debug, PartialEq, Clone)]
pub struct Subscription {
    /// The id of the subscription.
    pub subscription_id: u32,
    /// Milliseconds between two ticks.
    pub publishing_interval: i64,
    /// After how many ticks without a publish request the subscription ends.
    pub lifetime_count: u32,
    /// After how many ticks without notifications a keep-alive message is sent.
    pub max_keep_alive_count: u32,
    /// The most notifications in one message; 0 for no limit.
    pub max_notifications_per_publish: u32,
    /// The priority among the subscriptions of the session.
    pub priority: u8,
    /// Whether notifications are sent.
    pub publishing_enabled: bool,
    /// Where the subscription stands.
    pub state: SubscriptionState,
    /// The items that feed the subscription.
    pub monitored_items: Vec<MonitoredItem>,
    /// How many ticks have passed without a message.
    pub keep_alive_counter: u32,
    /// How many ticks have passed without a publish request.
    pub lifetime_counter: u32,
    /// The number of the last notification message; 0 before the first.
    pub last_sequence_number: u32,
    /// The messages sent and not yet acknowledged, oldest first.
    pub retransmission_queue: Vec<NotificationMessage>,
}

/// The value that a `Subscription` stands for.
pub struct SubscriptionView {
    pub subscription_id: u32,
    pub publishing_interval: i64,
    pub lifetime_count: u32,
    pub max_keep_alive_count: u32,
    pub max_notifications_per_publish: u32,
    pub priority: u8,
    pub publishing_enabled: bool,
    pub state: SubscriptionState,
    pub monitored_items: Seq<MonitoredItemView>,
    pub keep_alive_counter: u32,
    pub lifetime_counter: u32,
    pub last_sequence_number: u32,
    pub retransmission_queue: Seq<NotificationMessageView>,
}

impl DeepView for Subscription {
    type V = SubscriptionView;

    open spec fn deep_view(&self) -> SubscriptionView {
        SubscriptionView {
            subscription_id: self.subscription_id.deep_view(),
            publishing_interval: self.publishing_interval.deep_view(),
            lifetime_count: self.lifetime_count.deep_view(),
            max_keep_alive_count: self.max_keep_alive_count.deep_view(),
            max_notifications_per_publish: self.max_notifications_per_publish.deep_view(),
            priority: self.priority.deep_view(),
            publishing_enabled: self.publishing_enabled.deep_view(),
            state: self.state.deep_view(),
            monitored_items: self.monitored_items.deep_view(),
            keep_alive_counter: self.keep_alive_counter.deep_view(),
            lifetime_counter: self.lifetime_counter.deep_view(),
            last_sequence_number: self.last_sequence_number.deep_view(),
            retransmission_queue: self.retransmission_queue.deep_view(),
        }
    }
}

impl View for Subscription {
    type V = SubscriptionView;

    open spec fn view(&self) -> SubscriptionView {
        self.deep_view()
    }
}

/// What a tick of a subscription asks its session to do.
#[derive(Debug, PartialEq, Clone)]
pub enum TickAction {
    /// Nothing is to be sent.
    Nothing,
    /// A notification message is to be sent with a publish request of the
    /// session; the flag says whether more notifications wait.
    Publish(NotificationMessage, bool),
    /// A keep-alive message is to be sent with a publish request of the
    /// session.
    KeepAlive(NotificationMessage),
    /// The subscription has ended with the given status.
    Ended(StatusCode),
}

/// The value that a `TickAction` stands for.
pub enum TickActionView {
    Nothing,
    Publish(NotificationMessageView, bool),
    KeepAlive(NotificationMessageView),
    Ended(StatusCode),
}

impl DeepView for TickAction {
    type V = TickActionView;

    open spec fn deep_view(&self) -> TickActionView {
        match self {
            TickAction::Nothing => TickActionView::Nothing,
            TickAction::Publish(message, more) => TickActionView::Publish(message@, *more),
            TickAction::KeepAlive(message) => TickActionView::KeepAlive(message@),
            TickAction::Ended(status) => TickActionView::Ended(*status),
        }
    }
}

impl View for TickAction {
    type V = TickActionView;

    open spec fn view(&self) -> TickActionView {
        self.deep_view()
    }
}

/// The sequence number that follows `last`: one more, and 1 after the
/// largest.
pub open spec fn next_sequence_number(last: u32) -> u32 {
    if last == u32::MAX {
        1
    } else {
        (last + 1) as u32
    }
}

/// Whether the item at position `i` is told that its value lies within its
/// deadband: the flag at that position, and not where there is none.
pub open spec fn band_flag(in_band: Seq<bool>, i: int) -> bool {
    0 <= i < in_band.len() && in_band[i]
}

/// The items after each has ticked at the time `now`, the publishing
/// interval having passed.
pub open spec fn ticked_items(
    items: Seq<MonitoredItemView>,
    space: AddressSpaceView,
    now: DateTime,
    in_band: Seq<bool>,
) -> Seq<MonitoredItemView> {
    Seq::new(items.len(), |i: int| tick_outcome(items[i], space, now, true, band_flag(in_band, i)).1)
}

/// Whether one of the first `n` items has a notification queued.
pub open spec fn any_queued_upto(items: Seq<MonitoredItemView>, n: int) -> bool
    decreases n,
{
    n > 0 && (any_queued_upto(items, n - 1) || items[n - 1].notification_queue.len() > 0)
}

/// Whether an item has a notification queued.
pub open spec fn any_queued(items: Seq<MonitoredItemView>) -> bool {
    any_queued_upto(items, items.len() as int)
}

/// How many of the `queued` notifications of an item go into a message that
/// holds at most `max` notifications, 0 for any number, and holds
/// `already` of them.
pub open spec fn share(queued: nat, max: nat, already: nat) -> nat {
    if max == 0 {
        queued
    } else if already >= max {
        0
    } else if queued <= max - already {
        queued
    } else {
        (max - already) as nat
    }
}

/// The notifications that a message takes from the first `n` items: from
/// each in turn the oldest, as long as the message has room.
pub open spec fn taken_upto(items: Seq<MonitoredItemView>, max: nat, n: int) -> Seq<
    MonitoredItemNotificationView,
>
    decreases n,
{
    if n <= 0 {
        Seq::empty()
    } else {
        let before = taken_upto(items, max, n - 1);
        let queue = items[n - 1].notification_queue;
        before + queue.take(share(queue.len(), max, before.len()) as int)
    }
}

/// The item at position `i` after a message took its notifications.
pub open spec fn item_after_taking(items: Seq<MonitoredItemView>, max: nat, i: int) -> MonitoredItemView {
    let queue = items[i].notification_queue;
    MonitoredItemView {
        notification_queue: queue.skip(
            share(queue.len(), max, taken_upto(items, max, i).len()) as int,
        ),
        ..items[i]
    }
}

/// The items after a message took its notifications.
pub open spec fn items_after_taking(items: Seq<MonitoredItemView>, max: nat) -> Seq<
    MonitoredItemView,
> {
    Seq::new(items.len(), |i: int| item_after_taking(items, max, i))
}

/// The data of a message that carries `notifications`: one data change
/// notification in encoded form.
pub open spec fn message_data(notifications: Seq<MonitoredItemNotificationView>) -> Seq<
    ExtensionObjectView,
> {
    seq![
        ExtensionObjectView::carrying::<DataChangeNotification>(
            NodeIdView::numeric(
                0,
                ObjectId::DataChangeNotification_Encoding_DefaultBinary.spec_number(),
            ),
            DataChangeNotificationView {
                monitored_items: Some(notifications),
                diagnostic_infos: None,
            },
        ),
    ]
}

/// One more than `counter`, and `counter` where that is the largest number.
pub open spec fn counted(counter: u32) -> u32 {
    if counter == u32::MAX {
        counter
    } else {
        (counter + 1) as u32
    }
}

/// What one tick makes of a subscription, and what it asks the session to
/// do. `publish_parked` says whether the session holds a publish request.
///
/// A closed subscription does nothing. Else each item ticks. Without a
/// publish request the lifetime counter goes up, and where it reaches the
/// lifetime count the subscription ends with `BAD_TIMEOUT`; with one it
/// starts again. Where publishing is enabled and an item has a notification
/// queued, a message with the next sequence number takes the notifications
/// and is kept for retransmission, if a publish request is there; if none
/// is, the subscription is late. With nothing to send the keep-alive
/// counter goes up, and where it reaches its maximum a keep-alive message
/// is sent, if a publish request is there.
pub open spec fn subscription_tick(
    subscription: SubscriptionView,
    space: AddressSpaceView,
    now: DateTime,
    publish_parked: bool,
    in_band: Seq<bool>,
) -> (TickActionView, SubscriptionView) {
    if subscription.state == SubscriptionState::Closed {
        (TickActionView::Nothing, subscription)
    } else {
        let items = ticked_items(subscription.monitored_items, space, now, in_band);
        let lifetime_counter = if publish_parked {
            0
        } else {
            counted(subscription.lifetime_counter)
        };
        let ticked = SubscriptionView { monitored_items: items, lifetime_counter, ..subscription };
        let max = subscription.max_notifications_per_publish as nat;
        if !publish_parked && lifetime_counter >= subscription.lifetime_count {
            (
                TickActionView::Ended(StatusCode(BAD_TIMEOUT)),
                SubscriptionView { state: SubscriptionState::Closed, ..ticked },
            )
        } else if subscription.publishing_enabled && any_queued(items) {
            if publish_parked {
                let left = items_after_taking(items, max);
                let message = NotificationMessageView {
                    sequence_number: next_sequence_number(subscription.last_sequence_number),
                    publish_time: now,
                    notification_data: Some(
                        message_data(taken_upto(items, max, items.len() as int)),
                    ),
                };
                (
                    TickActionView::Publish(message, any_queued(left)),
                    SubscriptionView {
                        state: SubscriptionState::Normal,
                        monitored_items: left,
                        keep_alive_counter: 0,
                        last_sequence_number: message.sequence_number,
                        retransmission_queue: subscription.retransmission_queue.push(message),
                        ..ticked
                    },
                )
            } else {
                (
                    TickActionView::Nothing,
                    SubscriptionView { state: SubscriptionState::Late, ..ticked },
                )
            }
        } else {
            let keep_alive_counter = counted(subscription.keep_alive_counter);
            if keep_alive_counter >= subscription.max_keep_alive_count {
                if publish_parked {
                    (
                        TickActionView::KeepAlive(
                            NotificationMessageView {
                                sequence_number: next_sequence_number(
                                    subscription.last_sequence_number,
                                ),
                                publish_time: now,
                                notification_data: None,
                            },
                        ),
                        SubscriptionView {
                            state: SubscriptionState::KeepAlive,
                            keep_alive_counter: 0,
                            ..ticked
                        },
                    )
                } else {
                    (
                        TickActionView::Nothing,
                        SubscriptionView {
                            state: SubscriptionState::Late,
                            keep_alive_counter,
                            ..ticked
                        },
                    )
                }
            } else {
                (
                    TickActionView::Nothing,
                    SubscriptionView {
                        state: if subscription.state == SubscriptionState::Creating {
                            SubscriptionState::Normal
                        } else {
                            subscription.state
                        },
                        keep_alive_counter,
                        ..ticked
                    },
                )
            }
        }
    }
}

/// The position of the first of the messages from `from` on that has the
/// sequence number `sequence_number`.
pub open spec fn message_position_from(
    messages: Seq<NotificationMessageView>,
    sequence_number: u32,
    from: int,
) -> Option<int>
    decreases messages.len() - from,
{
    if from < 0 || from >= messages.len() {
        None
    } else if messages[from].sequence_number == sequence_number {
        Some(from)
    } else {
        message_position_from(messages, sequence_number, from + 1)
    }
}

/// The position of the first of `messages` that has the sequence number
/// `sequence_number`.
pub open spec fn message_position(messages: Seq<NotificationMessageView>, sequence_number: u32) -> Option<
    int,
> {
    message_position_from(messages, sequence_number, 0)
}

/// Where a message is found, its position is one of the sequence and it has
/// the sequence number.
pub proof fn lemma_message_position_from(
    messages: Seq<NotificationMessageView>,
    sequence_number: u32,
    from: int,
)
    requires
        0 <= from,
    ensures
        match message_position_from(messages, sequence_number, from) {
            Some(i) => from <= i < messages.len() && messages[i].sequence_number
                == sequence_number,
            None => forall|i: int|
                from <= i < messages.len() ==> (#[trigger] messages[i]).sequence_number
                    != sequence_number,
        },
    decreases messages.len() - from,
{
    if from < messages.len() && messages[from].sequence_number != sequence_number {
        lemma_message_position_from(messages, sequence_number, from + 1);
    }
}

/// The result of asking for a message again, as a value.
pub open spec fn message_view(result: Result<NotificationMessage, StatusCode>) -> Result<
    NotificationMessageView,
    StatusCode,
> {
    match result {
        Ok(message) => Ok(message@),
        Err(status) => Err(status),
    }
}

/// A copy of a notification message. An extension object in it whose copy
/// the library cannot speak of is copied all the same.
pub fn copy_message(message: &NotificationMessage) -> (r: NotificationMessage)
    ensures
        r@ == message@,
{
    let notification_data = match &message.notification_data {
        None => None,
        Some(data) => {
            let mut copy: Vec<ExtensionObject> = Vec::new();
            let mut i: usize = 0;
            while i < data.len()
                invariant
                    i <= data.len(),
                    copy.deep_view().len() == i,
                    forall|j: int| 0 <= j < i ==> copy.deep_view()[j] == data.deep_view()[j],
                decreases data.len() - i,
            {
                let ghost before = copy.deep_view();
                assert(data[i as int]@ == data.deep_view()[i as int]);
                copy.push(data[i].duplicate());
                assert(copy.deep_view() =~= before.push(data.deep_view()[i as int]));
                i = i + 1;
            }
            assert(copy.deep_view() =~= data.deep_view());
            Some(copy)
        },
    };
    NotificationMessage {
        sequence_number: message.sequence_number,
        publish_time: message.publish_time,
        notification_data,
    }
}

/// What a request for a monitored item leads to, and the subscription
/// afterwards. The node to monitor must be in the address space, else the
/// request fails with `BAD_NODE_ID_UNKNOWN`; the filter must be one that an
/// item takes. Then the subscription has the item, with the id
/// `monitored_item_id`, behind its other items. A request that fails leaves
/// the subscription as it is.
pub open spec fn item_creation(
    subscription: SubscriptionView,
    space: AddressSpaceView,
    monitored_item_id: u32,
    request: MonitoredItemCreateRequestView,
) -> (StatusCode, SubscriptionView) {
    if !space.node_exists(request.item_to_monitor.node_id) {
        (StatusCode(BAD_NODE_ID_UNKNOWN), subscription)
    } else {
        match filter_of(request.requested_parameters.filter) {
            Err(status) => (status, subscription),
            Ok(filter) => (
                StatusCode(GOOD),
                SubscriptionView {
                    monitored_items: subscription.monitored_items.push(
                        fresh_item(monitored_item_id, request, filter),
                    ),
                    ..subscription
                },
            ),
        }
    }
}

impl Subscription {
    /// Makes the monitored item that `request` asks for, as `item_creation`
    /// says, and returns the outcome.
    pub fn create_monitored_item(
        &mut self,
        address_space: &AddressSpace,
        monitored_item_id: u32,
        request: &MonitoredItemCreateRequest,
    ) -> (r: StatusCode)
        ensures
            (r, final(self)@) == item_creation(
                old(self)@,
                address_space@,
                monitored_item_id,
                request@,
            ),
    {
        if !address_space.node_exists(&request.item_to_monitor.node_id) {
            return StatusCode(BAD_NODE_ID_UNKNOWN);
        }
        match MonitoredItem::new(monitored_item_id, request) {
            Err(status) => status,
            Ok(item) => {
                self.monitored_items.push(item);
                assert(self@.monitored_items =~= old(self)@.monitored_items.push(item@));
                StatusCode(GOOD)
            },
        }
    }

    /// A subscription with the given settings, without items, on which
    /// nothing has happened.
    pub fn new(
        subscription_id: u32,
        publishing_enabled: bool,
        publishing_interval: i64,
        lifetime_count: u32,
        max_keep_alive_count: u32,
        max_notifications_per_publish: u32,
        priority: u8,
    ) -> (r: Subscription)
        ensures
            r@ == (SubscriptionView {
                subscription_id,
                publishing_interval,
                lifetime_count,
                max_keep_alive_count,
                max_notifications_per_publish,
                priority,
                publishing_enabled,
                state: SubscriptionState::Creating,
                monitored_items: Seq::empty(),
                keep_alive_counter: 0,
                lifetime_counter: 0,
                last_sequence_number: 0,
                retransmission_queue: Seq::empty(),
            }),
    {
        let r = Subscription {
            subscription_id,
            publishing_interval,
            lifetime_count,
            max_keep_alive_count,
            max_notifications_per_publish,
            priority,
            publishing_enabled,
            state: SubscriptionState::Creating,
            monitored_items: Vec::new(),
            keep_alive_counter: 0,
            lifetime_counter: 0,
            last_sequence_number: 0,
            retransmission_queue: Vec::new(),
        };
        assert(r@.monitored_items =~= Seq::empty());
        assert(r@.retransmission_queue =~= Seq::empty());
        r
    }

    /// Whether an item has a notification queued.
    pub fn has_notifications(&self) -> (r: bool)
        ensures
            r == any_queued(self@.monitored_items),
    {
        let mut i: usize = 0;
        while i < self.monitored_items.len()
            invariant
                i <= self.monitored_items.len(),
                self@.monitored_items.len() == self.monitored_items.len(),
                !any_queued_upto(self@.monitored_items, i as int),
            decreases self.monitored_items.len() - i,
        {
            assert(self.monitored_items[i as int]@ == self@.monitored_items[i as int]);
            if self.monitored_items[i].notification_queue.len() > 0 {
                proof {
                    lemma_any_queued_from(self@.monitored_items, i as int, self@.monitored_items.len() as int);
                }
                return true;
            }
            i = i + 1;
        }
        false
    }

    /// Lets each item tick.
    fn tick_items(&mut self, address_space: &AddressSpace, now: &DateTime, in_band: &[bool])
        ensures
            final(self)@ == (SubscriptionView {
                monitored_items: ticked_items(
                    old(self)@.monitored_items,
                    address_space@,
                    *now,
                    in_band@,
                ),
                ..old(self)@
            }),
    {
        let ghost items = self@.monitored_items;
        let mut i: usize = 0;
        while i < self.monitored_items.len()
            invariant
                i <= self.monitored_items.len(),
                items == old(self)@.monitored_items,
                self@.monitored_items.len() == items.len(),
                self.monitored_items.len() == items.len(),
                self@ == (SubscriptionView { monitored_items: self@.monitored_items, ..old(self)@ }),
                forall|j: int|
                    0 <= j < i ==> (#[trigger] self@.monitored_items[j]) == tick_outcome(
                        items[j],
                        address_space@,
                        *now,
                        true,
                        band_flag(in_band@, j),
                    ).1,
                forall|j: int| i <= j < items.len() ==> (#[trigger] self@.monitored_items[j]) == items[j],
            decreases self.monitored_items.len() - i,
        {
            let flag = i < in_band.len() && in_band[i];
            let ghost before = self@;
            assert(self.monitored_items[i as int]@ == self@.monitored_items[i as int]);
            let item = &mut self.monitored_items[i];
            let _ = item.tick(address_space, now, true, flag);
            proof {
                assert(self@.retransmission_queue =~= before.retransmission_queue);
                assert forall|j: int| 0 <= j < items.len() && j != i implies (
                #[trigger] self@.monitored_items[j]) == before.monitored_items[j] by {
                    assert(self.monitored_items[j]@ == self@.monitored_items[j]);
                }
                assert(self.monitored_items[i as int]@ == self@.monitored_items[i as int]);
            }
            i = i + 1;
        }
        assert(self@.monitored_items =~= ticked_items(items, address_space@, *now, in_band@));
    }

    /// Takes from the queues of the items the notifications of one message.
    fn take_notifications(&mut self) -> (r: Vec<MonitoredItemNotification>)
        ensures
            r.deep_view() == taken_upto(
                old(self)@.monitored_items,
                old(self)@.max_notifications_per_publish as nat,
                old(self)@.monitored_items.len() as int,
            ),
            final(self)@ == (SubscriptionView {
                monitored_items: items_after_taking(
                    old(self)@.monitored_items,
                    old(self)@.max_notifications_per_publish as nat,
                ),
                ..old(self)@
            }),
    {
        let ghost items = self@.monitored_items;
        let ghost max = self.max_notifications_per_publish as nat;
        let mut taken: Vec<MonitoredItemNotification> = Vec::new();
        let mut i: usize = 0;
        assert(taken.deep_view() =~= taken_upto(items, max, 0));
        while i < self.monitored_items.len()
            invariant
                i <= self.monitored_items.len(),
                items == old(self)@.monitored_items,
                max == old(self)@.max_notifications_per_publish,
                self@.monitored_items.len() == items.len(),
                self.monitored_items.len() == items.len(),
                self@ == (SubscriptionView { monitored_items: self@.monitored_items, ..old(self)@ }),
                taken.deep_view() == taken_upto(items, max, i as int),
                forall|j: int|
                    0 <= j < i ==> (#[trigger] self@.monitored_items[j]) == item_after_taking(
                        items,
                        max,
                        j,
                    ),
                forall|j: int| i <= j < items.len() ==> (#[trigger] self@.monitored_items[j]) == items[j],
            decreases self.monitored_items.len() - i,
        {
            let ghost before = self@;
            let ghost had = taken.deep_view();
            assert(self.monitored_items[i as int]@ == self@.monitored_items[i as int]);
            let queued = self.monitored_items[i].notification_queue.len();
            let count = if self.max_notifications_per_publish == 0 {
                queued
            } else if taken.len() >= self.max_notifications_per_publish as usize {
                0
            } else if queued <= self.max_notifications_per_publish as usize - taken.len() {
                queued
            } else {
                self.max_notifications_per_publish as usize - taken.len()
            };
            let item = &mut self.monitored_items[i];
            let ghost queue = item.notification_queue.deep_view();
            let mut rest = item.notification_queue.split_off(count);
            let ghost first = item.notification_queue.deep_view();
            let ghost second = rest.deep_view();
            taken.append(&mut item.notification_queue);
            item.notification_queue = rest;
            proof {
                assert(first =~= queue.take(count as int));
                assert(second =~= queue.skip(count as int));
                assert(taken.deep_view() =~= had + first);
                assert(self@.retransmission_queue =~= before.retransmission_queue);
                assert forall|j: int| 0 <= j < items.len() && j != i implies (
                #[trigger] self@.monitored_items[j]) == before.monitored_items[j] by {
                    assert(self.monitored_items[j]@ == self@.monitored_items[j]);
                }
                assert(self.monitored_items[i as int]@ == self@.monitored_items[i as int]);
            }
            i = i + 1;
        }
        assert(self@.monitored_items =~= items_after_taking(items, max));
        taken
    }

    /// Lets the subscription do what is due at the time `now`, and returns
    /// what the session is to do. `publish_parked` says whether the session
    /// holds a publish request; `in_band` says of each item, by its
    /// position, whether its value lies within its deadband.
    pub fn tick(
        &mut self,
        address_space: &AddressSpace,
        now: &DateTime,
        publish_parked: bool,
        in_band: &[bool],
    ) -> (r: TickAction)
        ensures
            (r@, final(self)@) == subscription_tick(
                old(self)@,
                address_space@,
                *now,
                publish_parked,
                in_band@,
            ),
    {
        if self.state == SubscriptionState::Closed {
            return TickAction::Nothing;
        }
        self.tick_items(address_space, now, in_band);
        if publish_parked {
            self.lifetime_counter = 0;
        } else {
            if self.lifetime_counter < u32::MAX {
                self.lifetime_counter = self.lifetime_counter + 1;
            }
            if self.lifetime_counter >= self.lifetime_count {
                self.state = SubscriptionState::Closed;
                return TickAction::Ended(StatusCode(BAD_TIMEOUT));
            }
        }
        let next = if self.last_sequence_number == u32::MAX {
            1
        } else {
            self.last_sequence_number + 1
        };
        if self.publishing_enabled && self.has_notifications() {
            if publish_parked {
                let notifications = self.take_notifications();
                let notification = DataChangeNotification {
                    monitored_items: Some(notifications),
                    diagnostic_infos: None,
                };
                let mut data: Vec<ExtensionObject> = Vec::new();
                data.push(
                    ExtensionObject::from_encodable(
                        ObjectId::DataChangeNotification_Encoding_DefaultBinary.as_node_id(),
                        &notification,
                    ),
                );
                let message = NotificationMessage {
                    sequence_number: next,
                    publish_time: *now,
                    notification_data: Some(data),
                };
                assert(message@.notification_data == Some(message_data(notification@.monitored_items.unwrap()))) by {
                    assert(data.deep_view() =~= message_data(notification@.monitored_items.unwrap()));
                }
                let more = self.has_notifications();
                self.state = SubscriptionState::Normal;
                self.keep_alive_counter = 0;
                self.last_sequence_number = next;
                let ghost before = self@.retransmission_queue;
                self.retransmission_queue.push(copy_message(&message));
                assert(self@.retransmission_queue =~= before.push(message@));
                TickAction::Publish(message, more)
            } else {
                self.state = SubscriptionState::Late;
                TickAction::Nothing
            }
        } else {
            if self.keep_alive_counter < u32::MAX {
                self.keep_alive_counter = self.keep_alive_counter + 1;
            }
            if self.keep_alive_counter >= self.max_keep_alive_count {
                if publish_parked {
                    self.state = SubscriptionState::KeepAlive;
                    self.keep_alive_counter = 0;
                    TickAction::KeepAlive(
                        NotificationMessage {
                            sequence_number: next,
                            publish_time: *now,
                            notification_data: None,
                        },
                    )
                } else {
                    self.state = SubscriptionState::Late;
                    TickAction::Nothing
                }
            } else {
                if self.state == SubscriptionState::Creating {
                    self.state = SubscriptionState::Normal;
                }
                TickAction::Nothing
            }
        }
    }

    /// The message with the sequence number `sequence_number` that is kept
    /// for retransmission, or `BAD_MESSAGE_NOT_AVAILABLE` where none is.
    pub fn republish(&self, sequence_number: u32) -> (r: Result<NotificationMessage, StatusCode>)
        ensures
            message_view(r) == match message_position(
                self@.retransmission_queue,
                sequence_number,
            ) {
                Some(i) => Ok::<NotificationMessageView, StatusCode>(
                    self@.retransmission_queue[i],
                ),
                None => Err::<NotificationMessageView, StatusCode>(
                    StatusCode(BAD_MESSAGE_NOT_AVAILABLE),
                ),
            },
    {
        let mut i: usize = 0;
        while i < self.retransmission_queue.len()
            invariant
                i <= self.retransmission_queue.len(),
                self@.retransmission_queue.len() == self.retransmission_queue.len(),
                message_position(self@.retransmission_queue, sequence_number)
                    == message_position_from(self@.retransmission_queue, sequence_number, i as int),
            decreases self.retransmission_queue.len() - i,
        {
            assert(self.retransmission_queue[i as int]@ == self@.retransmission_queue[i as int]);
            if self.retransmission_queue[i].sequence_number == sequence_number {
                return Ok(copy_message(&self.retransmission_queue[i]));
            }
            i = i + 1;
        }
        Err(StatusCode(BAD_MESSAGE_NOT_AVAILABLE))
    }

    /// Takes the message with the sequence number `sequence_number` out of
    /// the messages kept for retransmission. Returns a good status, or
    /// `BAD_SEQUENCE_NUMBER_UNKNOWN` where no such message is kept.
    pub fn acknowledge(&mut self, sequence_number: u32) -> (r: StatusCode)
        ensures
            match message_position(old(self)@.retransmission_queue, sequence_number) {
                Some(i) => r == StatusCode(GOOD) && final(self)@ == (SubscriptionView {
                    retransmission_queue: old(self)@.retransmission_queue.remove(i),
                    ..old(self)@
                }),
                None => r == StatusCode(BAD_SEQUENCE_NUMBER_UNKNOWN) && final(self)@ == old(self)@,
            },
    {
        let ghost messages = self@.retransmission_queue;
        let mut i: usize = 0;
        while i < self.retransmission_queue.len()
            invariant
                i <= self.retransmission_queue.len(),
                *self == *old(self),
                messages == self@.retransmission_queue,
                messages.len() == self.retransmission_queue.len(),
                message_position(messages, sequence_number) == message_position_from(
                    messages,
                    sequence_number,
                    i as int,
                ),
            decreases self.retransmission_queue.len() - i,
        {
            assert(self.retransmission_queue[i as int]@ == messages[i as int]);
            if self.retransmission_queue[i].sequence_number == sequence_number {
                let ghost before = self@;
                let _ = self.retransmission_queue.remove(i);
                assert(self@.retransmission_queue =~= messages.remove(i as int));
                assert(self@.monitored_items =~= before.monitored_items);
                return StatusCode(GOOD);
            }
            i = i + 1;
        }
        StatusCode(BAD_SEQUENCE_NUMBER_UNKNOWN)
    }

    /// The sequence numbers of the messages kept for retransmission.
    pub fn available_sequence_numbers(&self) -> (r: Vec<u32>)
        ensures
            r@ == Seq::new(
                self@.retransmission_queue.len(),
                |i: int| self@.retransmission_queue[i].sequence_number,
            ),
    {
        let mut numbers: Vec<u32> = Vec::new();
        let mut i: usize = 0;
        while i < self.retransmission_queue.len()
            invariant
                i <= self.retransmission_queue.len(),
                self@.retransmission_queue.len() == self.retransmission_queue.len(),
                numbers@.len() == i,
                forall|j: int|
                    0 <= j < i ==> numbers@[j] == self@.retransmission_queue[j].sequence_number,
            decreases self.retransmission_queue.len() - i,
        {
            assert(self.retransmission_queue[i as int]@ == self@.retransmission_queue[i as int]);
            numbers.push(self.retransmission_queue[i].sequence_number);
            i = i + 1;
        }
        assert(numbers@ =~= Seq::new(
            self@.retransmission_queue.len(),
            |i: int| self@.retransmission_queue[i].sequence_number,
        ));
        numbers
    }
}

/// An item with a notification queued among the first `n` makes for one
/// among the first `m`, for `m` no smaller than `n`.
pub proof fn lemma_any_queued_from(items: Seq<MonitoredItemView>, i: int, m: int)
    requires
        0 <= i < m <= items.len(),
        items[i].notification_queue.len() > 0,
    ensures
        any_queued_upto(items, m),
    decreases m - i,
{
    if m > i + 1 {
        lemma_any_queued_from(items, i, m - 1);
    }
}

} // verus!
