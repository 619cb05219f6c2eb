//! Sessions: what the server holds for one client.

use crate::address_space::AddressSpace;
use crate::byte_string::ByteString;
use crate::continuation_point::{BrowseContinuationPoint, BrowseContinuationPointView, Moment};
use crate::date_time::DateTime;
use crate::node_id::{NodeId, NodeIdView};
use crate::subscriptions::subscriptions::{Subscriptions, SubscriptionsView};
use vstd::prelude::*;

verus! {

/// Ticks in one millisecond.
pub const TICKS_PER_MILLISECOND: i64 = 10_000;

/// What the server holds for one client: who it is, the channel it speaks
/// on, the continuation points of its browses and its subscriptions.
#[derive(Debug, PartialEq)]
pub struct Session {
    session_id: NodeId,
    authentication_token: NodeId,
    activated: bool,
    session_timeout: u32,
    secure_channel_id: u32,
    last_activity: DateTime,
    browse_continuation_points: Vec<BrowseContinuationPoint>,
    subscriptions: Subscriptions,
}

/// The value that a `Session` stands for.
pub struct SessionView {
    /// The id of the session.
    pub session_id: NodeIdView,
    /// The secret by which requests name the session.
    pub authentication_token: NodeIdView,
    /// Whether the session was activated.
    pub activated: bool,
    /// After how many milliseconds without a request the session ends.
    pub session_timeout: u32,
    /// The secure channel that the session speaks on.
    pub secure_channel_id: u32,
    /// When the last request of the session arrived.
    pub last_activity: DateTime,
    /// The continuation points of the session, oldest first.
    pub browse_continuation_points: Seq<BrowseContinuationPointView>,
    /// The subscriptions of the session.
    pub subscriptions: SubscriptionsView,
}

impl DeepView for Session {
    type V = SessionView;

    closed spec fn deep_view(&self) -> SessionView {
        SessionView {
            session_id: self.session_id@,
            authentication_token: self.authentication_token@,
            activated: self.activated,
            session_timeout: self.session_timeout,
            secure_channel_id: self.secure_channel_id,
            last_activity: self.last_activity,
            browse_continuation_points: self.browse_continuation_points.deep_view(),
            subscriptions: self.subscriptions@,
        }
    }
}

impl View for Session {
    type V = SessionView;

    open spec fn view(&self) -> SessionView {
        self.deep_view()
    }
}

/// Of the first `n` of `points`, those that can still be used at `moment`.
pub open spec fn valid_points_upto(
    points: Seq<BrowseContinuationPointView>,
    moment: Moment,
    n: int,
) -> Seq<BrowseContinuationPointView>
    decreases n,
{
    if n <= 0 {
        Seq::empty()
    } else {
        let before = valid_points_upto(points, moment, n - 1);
        if points[n - 1].is_valid(moment) {
            before.push(points[n - 1])
        } else {
            before
        }
    }
}

/// Of `points`, those that can still be used at `moment`.
pub open spec fn valid_points(
    points: Seq<BrowseContinuationPointView>,
    moment: Moment,
) -> Seq<BrowseContinuationPointView> {
    valid_points_upto(points, moment, points.len() as int)
}

/// Of the first `n` of `points`, those whose id is none of `ids`.
pub open spec fn other_points_upto(
    points: Seq<BrowseContinuationPointView>,
    ids: Seq<Option<Seq<u8>>>,
    n: int,
) -> Seq<BrowseContinuationPointView>
    decreases n,
{
    if n <= 0 {
        Seq::empty()
    } else {
        let before = other_points_upto(points, ids, n - 1);
        if ids.contains(points[n - 1].id) {
            before
        } else {
            before.push(points[n - 1])
        }
    }
}

/// Of `points`, those whose id is none of `ids`.
pub open spec fn other_points(
    points: Seq<BrowseContinuationPointView>,
    ids: Seq<Option<Seq<u8>>>,
) -> Seq<BrowseContinuationPointView> {
    other_points_upto(points, ids, points.len() as int)
}

/// The position of the first of the points from `from` on that has the id
/// `id`.
pub open spec fn point_position_from(
    points: Seq<BrowseContinuationPointView>,
    id: Option<Seq<u8>>,
    from: int,
) -> Option<int>
    decreases points.len() - from,
{
    if from < 0 || from >= points.len() {
        None
    } else if points[from].id == id {
        Some(from)
    } else {
        point_position_from(points, id, from + 1)
    }
}

/// The position of the first of `points` that has the id `id`.
pub open spec fn point_position(points: Seq<BrowseContinuationPointView>, id: Option<Seq<u8>>) -> Option<
    int,
> {
    point_position_from(points, id, 0)
}

/// Where a point is found, its position is one of the sequence and it has
/// the id.
pub proof fn lemma_point_position_from(
    points: Seq<BrowseContinuationPointView>,
    id: Option<Seq<u8>>,
    from: int,
)
    requires
        0 <= from,
    ensures
        point_position_from(points, id, from) matches Some(i) ==> from <= i < points.len()
            && points[i].id == id,
    decreases points.len() - from,
{
    if from < points.len() && points[from].id != id {
        lemma_point_position_from(points, id, from + 1);
    }
}

impl SessionView {
    /// A session that is not activated, on no channel, and holds neither
    /// continuation points nor subscriptions.
    pub open spec fn fresh(
        session_id: NodeIdView,
        authentication_token: NodeIdView,
        session_timeout: u32,
    ) -> SessionView {
        SessionView {
            session_id,
            authentication_token,
            activated: false,
            session_timeout,
            secure_channel_id: 0,
            last_activity: DateTime { ticks: 0 },
            browse_continuation_points: Seq::empty(),
            subscriptions: SubscriptionsView {
                subscriptions: Seq::empty(),
                publish_request_queue: Seq::empty(),
            },
        }
    }

    /// Whether the session has been silent for longer than its timeout at
    /// the time `now`.
    pub open spec fn is_expired(self, now: DateTime) -> bool {
        now.ticks - self.last_activity.ticks > self.session_timeout * TICKS_PER_MILLISECOND
    }

    /// What the continuation points of the session are judged against with
    /// an address space whose stamp is `last_modified`: the time is that of
    /// the last activity of the session, and a point can be used for as long
    /// as the session may be silent.
    pub open spec fn moment(self, last_modified: u64) -> Moment {
        Moment { last_modified, now: self.last_activity, lifetime: self.session_timeout }
    }

    /// The same session with other continuation points.
    pub open spec fn with_points(self, points: Seq<BrowseContinuationPointView>) -> SessionView {
        SessionView { browse_continuation_points: points, ..self }
    }
}

impl Session {
    /// A session that is not activated, on no channel, and holds neither
    /// continuation points nor subscriptions.
    pub fn new(session_id: NodeId, authentication_token: NodeId, session_timeout: u32) -> (r:
        Session)
        ensures
            r@ == SessionView::fresh(session_id@, authentication_token@, session_timeout),
    {
        let r = Session {
            session_id,
            authentication_token,
            activated: false,
            session_timeout,
            secure_channel_id: 0,
            last_activity: DateTime { ticks: 0 },
            browse_continuation_points: Vec::new(),
            subscriptions: Subscriptions::new(),
        };
        assert(r@.browse_continuation_points =~= Seq::empty());
        r
    }

    /// The secure channel that the session speaks on.
    pub fn secure_channel_id(&self) -> (r: u32)
        ensures
            r == self@.secure_channel_id,
    {
        self.secure_channel_id
    }

    /// Binds the session to the secure channel `secure_channel_id`.
    pub fn set_secure_channel_id(&mut self, secure_channel_id: u32)
        ensures
            final(self)@ == (SessionView { secure_channel_id, ..old(self)@ }),
    {
        self.secure_channel_id = secure_channel_id;
    }

    /// When the last request of the session arrived.
    pub fn last_activity(&self) -> (r: DateTime)
        ensures
            r == self@.last_activity,
    {
        self.last_activity
    }

    /// Notes that a request of the session arrived at the time `now`.
    pub fn set_last_activity(&mut self, now: DateTime)
        ensures
            final(self)@ == (SessionView { last_activity: now, ..old(self)@ }),
    {
        self.last_activity = now;
    }

    /// The subscriptions of the session, which end with it.
    pub fn subscriptions(&self) -> (r: &Subscriptions)
        ensures
            r@ == self@.subscriptions,
    {
        &self.subscriptions
    }

    /// The subscriptions of the session, to work on.
    pub fn subscriptions_mut(&mut self) -> (r: &mut Subscriptions)
        ensures
            r@ == old(self)@.subscriptions,
            final(self)@ == (SessionView { subscriptions: final(r)@, ..old(self)@ }),
    {
        &mut self.subscriptions
    }

    /// Whether the session has been silent for longer than its timeout.
    pub fn is_expired(&self, now: &DateTime) -> (r: bool)
        ensures
            r == self@.is_expired(*now),
    {
        let silent: i128 = now.ticks as i128 - self.last_activity.ticks as i128;
        silent > (self.session_timeout as i128) * (TICKS_PER_MILLISECOND as i128)
    }

    /// The session id.
    pub fn session_id(&self) -> (r: &NodeId)
        ensures
            r@ == self@.session_id,
    {
        &self.session_id
    }

    /// The authentication token.
    pub fn authentication_token(&self) -> (r: &NodeId)
        ensures
            r@ == self@.authentication_token,
    {
        &self.authentication_token
    }

    /// Whether the session is activated.
    pub fn is_activated(&self) -> (r: bool)
        ensures
            r == self@.activated,
    {
        self.activated
    }

    /// Sets the activated.
    pub fn set_activated(&mut self, activated: bool)
        ensures
            final(self)@ == (SessionView { activated, ..old(self)@ }),
    {
        self.activated = activated;
    }

    /// The session timeout.
    pub fn session_timeout(&self) -> (r: u32)
        ensures
            r == self@.session_timeout,
    {
        self.session_timeout
    }

    /// How many continuation points the session holds.
    pub fn browse_continuation_point_count(&self) -> (r: usize)
        ensures
            r == self@.browse_continuation_points.len(),
    {
        self.browse_continuation_points.len()
    }

    /// Keeps `continuation_point` behind the points that the session holds,
    /// in place of any that has the same id: no two points of a session
    /// that were kept so have one id.
    pub fn add_browse_continuation_point(&mut self, continuation_point: BrowseContinuationPoint)
        ensures
            final(self)@ == old(self)@.with_points(
                other_points(
                    old(self)@.browse_continuation_points,
                    seq![continuation_point@.id],
                ).push(continuation_point@),
            ),
    {
        let mut ids: Vec<ByteString> = Vec::new();
        ids.push(continuation_point.id().clone());
        assert(ids.deep_view() =~= seq![continuation_point@.id]);
        let same = ids.as_slice();
        assert(same.deep_view() =~= ids.deep_view());
        self.remove_browse_continuation_points(same);
        let ghost before = self@.browse_continuation_points;
        self.browse_continuation_points.push(continuation_point);
        assert(self@.browse_continuation_points =~= before.push(continuation_point@));
    }

    /// Drops the points that can no longer be used with `address_space` at
    /// the time of the last activity of the session: a point can be used for
    /// as long as the session may be silent.
    pub fn remove_expired_browse_continuation_points(&mut self, address_space: &AddressSpace)
        ensures
            final(self)@ == old(self)@.with_points(
                valid_points(
                    old(self)@.browse_continuation_points,
                    old(self)@.moment(address_space@.last_modified),
                ),
            ),
    {
        let ghost points = self@.browse_continuation_points;
        let ghost stamp = self@.moment(address_space@.last_modified);
        let now = self.last_activity;
        let lifetime = self.session_timeout;
        let ghost mut seen: int = 0;
        let mut i: usize = 0;
        assert(self@.browse_continuation_points =~= valid_points_upto(points, stamp, 0)
            + points.skip(0));
        while i < self.browse_continuation_points.len()
            invariant
                0 <= seen <= points.len(),
                stamp == old(self)@.moment(address_space@.last_modified),
                now == old(self)@.last_activity,
                lifetime == old(self)@.session_timeout,
                i == valid_points_upto(points, stamp, seen).len(),
                self@ == old(self)@.with_points(self@.browse_continuation_points),
                self@.browse_continuation_points == valid_points_upto(points, stamp, seen)
                    + points.skip(seen),
                self@.browse_continuation_points.len() == self.browse_continuation_points.len(),
            decreases self.browse_continuation_points.len() - i,
        {
            let ghost before = self@.browse_continuation_points;
            assert(self.browse_continuation_points[i as int]@ == before[i as int]);
            assert(before[i as int] == points[seen]);
            if self.browse_continuation_points[i].is_valid_browse_continuation_point(
                address_space,
                &now,
                lifetime,
            ) {
                i = i + 1;
                proof {
                    assert(before =~= valid_points_upto(points, stamp, seen + 1) + points.skip(
                        seen + 1,
                    ));
                }
            } else {
                let _ = self.browse_continuation_points.remove(i);
                proof {
                    assert(self@.browse_continuation_points =~= before.remove(i as int));
                    assert(before.remove(i as int) =~= valid_points_upto(points, stamp, seen + 1)
                        + points.skip(seen + 1));
                }
            }
            proof {
                seen = seen + 1;
            }
        }
        proof {
            assert(seen == points.len());
            assert(self@.browse_continuation_points =~= valid_points(points, stamp));
        }
    }

    /// Finds the first point with the id `id`, takes it out of the session
    /// and returns it.
    pub fn find_browse_continuation_point(&mut self, id: &ByteString) -> (r: Option<
        BrowseContinuationPoint,
    >)
        ensures
            match point_position(old(self)@.browse_continuation_points, id@) {
                Some(i) => r matches Some(point) && point@ == old(
                    self,
                )@.browse_continuation_points[i] && final(self)@ == old(self)@.with_points(
                    old(self)@.browse_continuation_points.remove(i),
                ),
                None => r is None && final(self)@ == old(self)@,
            },
    {
        let ghost points = self@.browse_continuation_points;
        let mut i: usize = 0;
        while i < self.browse_continuation_points.len()
            invariant
                i <= self.browse_continuation_points.len(),
                *self == *old(self),
                points == self@.browse_continuation_points,
                points.len() == self.browse_continuation_points.len(),
                point_position(points, id@) == point_position_from(points, id@, i as int),
            decreases self.browse_continuation_points.len() - i,
        {
            assert(self.browse_continuation_points[i as int]@ == points[i as int]);
            if *self.browse_continuation_points[i].id() == *id {
                let point = self.browse_continuation_points.remove(i);
                assert(self@.browse_continuation_points =~= points.remove(i as int));
                return Some(point);
            }
            i = i + 1;
        }
        None
    }

    /// Drops the points whose id is one of `continuation_points`.
    pub fn remove_browse_continuation_points(&mut self, continuation_points: &[ByteString])
        ensures
            final(self)@ == old(self)@.with_points(
                other_points(old(self)@.browse_continuation_points, continuation_points.deep_view()),
            ),
    {
        let ghost points = self@.browse_continuation_points;
        let ghost ids = continuation_points.deep_view();
        let ghost mut seen: int = 0;
        let mut i: usize = 0;
        assert(self@.browse_continuation_points =~= other_points_upto(points, ids, 0) + points.skip(
            0,
        ));
        while i < self.browse_continuation_points.len()
            invariant
                0 <= seen <= points.len(),
                ids == continuation_points.deep_view(),
                i == other_points_upto(points, ids, seen).len(),
                self@ == old(self)@.with_points(self@.browse_continuation_points),
                self@.browse_continuation_points == other_points_upto(points, ids, seen)
                    + points.skip(seen),
                self@.browse_continuation_points.len() == self.browse_continuation_points.len(),
            decreases self.browse_continuation_points.len() - i,
        {
            let ghost before = self@.browse_continuation_points;
            assert(self.browse_continuation_points[i as int]@ == before[i as int]);
            assert(before[i as int] == points[seen]);
            if id_is_among(self.browse_continuation_points[i].id(), continuation_points) {
                let _ = self.browse_continuation_points.remove(i);
                proof {
                    assert(self@.browse_continuation_points =~= before.remove(i as int));
                    assert(before.remove(i as int) =~= other_points_upto(points, ids, seen + 1)
                        + points.skip(seen + 1));
                }
            } else {
                i = i + 1;
                proof {
                    assert(before =~= other_points_upto(points, ids, seen + 1) + points.skip(
                        seen + 1,
                    ));
                }
            }
            proof {
                seen = seen + 1;
            }
        }
        proof {
            assert(seen == points.len());
            assert(self@.browse_continuation_points =~= other_points(points, ids));
        }
    }
}

/// Whether `id` is one of `ids`.
pub fn id_is_among(id: &ByteString, ids: &[ByteString]) -> (r: bool)
    ensures
        r == ids.deep_view().contains(id@),
{
    let mut i: usize = 0;
    while i < ids.len()
        invariant
            i <= ids.len(),
            ids.deep_view().len() == ids.len(),
            forall|j: int| 0 <= j < i ==> ids.deep_view()[j] != id@,
        decreases ids.len() - i,
    {
        assert(ids[i as int]@ == ids.deep_view()[i as int]);
        if ids[i] == *id {
            return true;
        }
        i = i + 1;
    }
    false
}

} // verus!
