//! The sessions of the server: making, activating, finding and ending them.

use crate::date_time::DateTime;
use crate::node_id::{NodeId, NodeIdView};
use crate::session::{Session, SessionView};
use crate::status_codes::{
    StatusCode, BAD_IDENTITY_TOKEN_REJECTED, BAD_SECURE_CHANNEL_ID_INVALID, BAD_SESSION_CLOSED,
    BAD_SESSION_ID_INVALID, BAD_SESSION_NOT_ACTIVATED, BAD_TOO_MANY_SESSIONS,
};
use vstd::prelude::*;

verus! {

/// The namespace in which the ids of sessions lie.
pub const SESSION_NAMESPACE: u16 = 1;

/// The sessions of the server.
#[derive(Debug, PartialEq)]
pub struct SessionManager {
    sessions: Vec<Session>,
    max_sessions: usize,
    last_session_number: u32,
}

/// The value that a `SessionManager` stands for.
pub struct SessionManagerView {
    /// The sessions, in the order in which they were made.
    pub sessions: Seq<SessionView>,
    /// The most sessions that there may be at once.
    pub max_sessions: usize,
    /// The number of the id of the session that was made last.
    pub last_session_number: u32,
}

impl DeepView for SessionManager {
    type V = SessionManagerView;

    closed spec fn deep_view(&self) -> SessionManagerView {
        SessionManagerView {
            sessions: self.sessions.deep_view(),
            max_sessions: self.max_sessions,
            last_session_number: self.last_session_number,
        }
    }
}

impl View for SessionManager {
    type V = SessionManagerView;

    open spec fn view(&self) -> SessionManagerView {
        self.deep_view()
    }
}

/// The position of the first of the sessions from `from` on that has the
/// authentication token `token`.
pub open spec fn session_position_from(sessions: Seq<SessionView>, token: NodeIdView, from: int) -> Option<
    int,
>
    decreases sessions.len() - from,
{
    if from < 0 || from >= sessions.len() {
        None
    } else if sessions[from].authentication_token == token {
        Some(from)
    } else {
        session_position_from(sessions, token, from + 1)
    }
}

/// The position of the first of `sessions` that has the authentication
/// token `token`.
pub open spec fn session_position(sessions: Seq<SessionView>, token: NodeIdView) -> Option<int> {
    session_position_from(sessions, token, 0)
}

/// Where a session is found, its position is one of the sequence and it has
/// the token; where none is found, no session has the token.
pub proof fn lemma_session_position_from(sessions: Seq<SessionView>, token: NodeIdView, from: int)
    requires
        0 <= from,
    ensures
        match session_position_from(sessions, token, from) {
            Some(i) => from <= i < sessions.len() && sessions[i].authentication_token == token,
            None => forall|i: int|
                from <= i < sessions.len() ==> (#[trigger] sessions[i]).authentication_token
                    != token,
        },
    decreases sessions.len() - from,
{
    if from < sessions.len() && sessions[from].authentication_token != token {
        lemma_session_position_from(sessions, token, from + 1);
    }
}

/// Of the first `n` of `sessions`, those for which `keeps` holds at the
/// time `now` and for the channel `secure_channel_id`.
pub open spec fn kept_sessions_upto(
    sessions: Seq<SessionView>,
    now: DateTime,
    closed_channel: Option<u32>,
    n: int,
) -> Seq<SessionView>
    decreases n,
{
    if n <= 0 {
        Seq::empty()
    } else {
        let before = kept_sessions_upto(sessions, now, closed_channel, n - 1);
        if is_kept(sessions[n - 1], now, closed_channel) {
            before.push(sessions[n - 1])
        } else {
            before
        }
    }
}

/// Whether a session outlives a sweep: where a channel is closed, a
/// session on another channel; else a session that has not been silent for
/// longer than its timeout.
pub open spec fn is_kept(session: SessionView, now: DateTime, closed_channel: Option<u32>) -> bool {
    match closed_channel {
        Some(secure_channel_id) => session.secure_channel_id != secure_channel_id,
        None => !session.is_expired(now),
    }
}

/// What judging a request makes of the session that the request names: the
/// session must speak on the channel of the request, must not have been
/// silent for longer than its timeout, and must be activated.
pub open spec fn request_status(session: SessionView, secure_channel_id: u32, now: DateTime) -> Option<
    StatusCode,
> {
    if session.secure_channel_id != secure_channel_id {
        Some(StatusCode(BAD_SECURE_CHANNEL_ID_INVALID))
    } else if session.is_expired(now) {
        Some(StatusCode(BAD_SESSION_CLOSED))
    } else if !session.activated {
        Some(StatusCode(BAD_SESSION_NOT_ACTIVATED))
    } else {
        None
    }
}

impl SessionManagerView {
    /// The manager with other sessions.
    pub open spec fn with_sessions(self, sessions: Seq<SessionView>) -> SessionManagerView {
        SessionManagerView { sessions, ..self }
    }

    /// Whether one more session can be made.
    pub open spec fn has_room(self) -> bool {
        self.sessions.len() < self.max_sessions && self.last_session_number < u32::MAX
    }

    /// The id of the session that is made next.
    pub open spec fn next_session_id(self) -> NodeIdView {
        NodeIdView::numeric(SESSION_NAMESPACE, (self.last_session_number + 1) as u32)
    }

    /// The manager after a session with the authentication token `token`
    /// was made on the channel `secure_channel_id` at the time `now`.
    pub open spec fn with_new_session(
        self,
        secure_channel_id: u32,
        token: NodeIdView,
        session_timeout: u32,
        now: DateTime,
    ) -> SessionManagerView {
        SessionManagerView {
            sessions: self.sessions.push(
                SessionView {
                    secure_channel_id,
                    last_activity: now,
                    ..SessionView::fresh(self.next_session_id(), token, session_timeout)
                },
            ),
            last_session_number: (self.last_session_number + 1) as u32,
            ..self
        }
    }
}

/// The result of making a session, as a value.
pub open spec fn session_id_view(result: Result<NodeId, StatusCode>) -> Result<NodeIdView, StatusCode> {
    match result {
        Ok(id) => Ok(id@),
        Err(status) => Err(status),
    }
}

impl SessionManager {
    /// A manager of at most `max_sessions` sessions, without sessions.
    pub fn new(max_sessions: usize) -> (r: SessionManager)
        ensures
            r@ == (SessionManagerView {
                sessions: Seq::empty(),
                max_sessions,
                last_session_number: 0,
            }),
    {
        let r = SessionManager { sessions: Vec::new(), max_sessions, last_session_number: 0 };
        assert(r@.sessions =~= Seq::empty());
        r
    }

    /// How many sessions there are.
    pub fn session_count(&self) -> (r: usize)
        ensures
            r == self@.sessions.len(),
    {
        self.sessions.len()
    }

    /// The position of the first session with the authentication token
    /// `token`.
    pub fn find(&self, token: &NodeId) -> (r: Option<usize>)
        ensures
            match r {
                Some(p) => p < self@.sessions.len() && session_position(self@.sessions, token@)
                    == Some(p as int),
                None => session_position(self@.sessions, token@) is None,
            },
    {
        let mut i: usize = 0;
        while i < self.sessions.len()
            invariant
                i <= self.sessions.len(),
                self@.sessions.len() == self.sessions.len(),
                session_position(self@.sessions, token@) == session_position_from(
                    self@.sessions,
                    token@,
                    i as int,
                ),
            decreases self.sessions.len() - i,
        {
            assert(self.sessions[i as int]@ == self@.sessions[i as int]);
            if *self.sessions[i].authentication_token() == *token {
                return Some(i);
            }
            i = i + 1;
        }
        None
    }

    /// The session at position `position`.
    pub fn session(&self, position: usize) -> (r: &Session)
        requires
            position < self@.sessions.len(),
        ensures
            r@ == self@.sessions[position as int],
    {
        assert(self.sessions[position as int]@ == self@.sessions[position as int]);
        &self.sessions[position]
    }

    /// The session at position `position`, to work on. Its authentication
    /// token is not to be changed.
    pub fn session_mut(&mut self, position: usize) -> (r: &mut Session)
        requires
            position < old(self)@.sessions.len(),
        ensures
            r@ == old(self)@.sessions[position as int],
            final(self)@ == old(self)@.with_sessions(
                old(self)@.sessions.update(position as int, final(r)@),
            ),
    {
        let ghost before = self@;
        assert(self.sessions[position as int]@ == before.sessions[position as int]);
        let session = &mut self.sessions[position];
        proof {
            let after = after_borrow(self.sessions);
            assert(after.deep_view() =~= before.sessions.update(position as int, final(session)@)) by {
                assert forall|j: int| 0 <= j < before.sessions.len() implies after.deep_view()[j] == before.sessions.update(position as int, final(session)@)[j] by {
                    assert(after@[j]@ == after.deep_view()[j]);
                    if j != position {
                        assert(old(self).sessions@[j]@ == before.sessions[j]);
                    }
                }
            }
        }
        session
    }

    /// Makes a session on the channel `secure_channel_id` at the time
    /// `now`, with `authentication_token` as its secret, and returns its id.
    /// Fails with `BAD_TOO_MANY_SESSIONS` where no more session can be
    /// made.
    pub fn create_session(
        &mut self,
        secure_channel_id: u32,
        authentication_token: NodeId,
        session_timeout: u32,
        now: DateTime,
    ) -> (r: Result<NodeId, StatusCode>)
        ensures
            old(self)@.has_room() ==> session_id_view(r) == Ok::<NodeIdView, StatusCode>(
                old(self)@.next_session_id(),
            ) && final(self)@ == old(self)@.with_new_session(
                secure_channel_id,
                authentication_token@,
                session_timeout,
                now,
            ),
            !old(self)@.has_room() ==> r == Err::<NodeId, StatusCode>(
                StatusCode(BAD_TOO_MANY_SESSIONS),
            ) && final(self)@ == old(self)@,
    {
        if self.sessions.len() >= self.max_sessions || self.last_session_number == u32::MAX {
            return Err(StatusCode(BAD_TOO_MANY_SESSIONS));
        }
        let ghost before = self@;
        self.last_session_number = self.last_session_number + 1;
        let session_id = NodeId::new_numeric(SESSION_NAMESPACE, self.last_session_number);
        let mut session = Session::new(session_id.clone(), authentication_token, session_timeout);
        session.set_secure_channel_id(secure_channel_id);
        session.set_last_activity(now);
        self.sessions.push(session);
        assert(self@.sessions =~= before.sessions.push(session@));
        Ok(session_id)
    }

    /// Activates the session with the authentication token `token` on the
    /// channel `secure_channel_id`, which from now on is the only channel
    /// that the session speaks on. `identity_accepted` says whether the
    /// server takes the identity that the client has shown. Fails, changing
    /// nothing, with `BAD_SESSION_ID_INVALID` where there is no such
    /// session, with `BAD_SESSION_CLOSED` where it has been silent for
    /// longer than its timeout, and with `BAD_IDENTITY_TOKEN_REJECTED` where
    /// the identity is not taken.
    pub fn activate_session(
        &mut self,
        token: &NodeId,
        secure_channel_id: u32,
        identity_accepted: bool,
        now: DateTime,
    ) -> (r: Result<(), StatusCode>)
        ensures
            match session_position(old(self)@.sessions, token@) {
                None => r == Err::<(), StatusCode>(StatusCode(BAD_SESSION_ID_INVALID)) && final(self)@ == old(self)@,
                Some(p) => if old(self)@.sessions[p].is_expired(now) {
                    r == Err::<(), StatusCode>(StatusCode(BAD_SESSION_CLOSED)) && final(self)@
                        == old(self)@
                } else if !identity_accepted {
                    r == Err::<(), StatusCode>(StatusCode(BAD_IDENTITY_TOKEN_REJECTED)) && final(self)@ == old(self)@
                } else {
                    r is Ok && final(self)@ == old(self)@.with_sessions(
                        old(self)@.sessions.update(
                            p,
                            SessionView {
                                activated: true,
                                secure_channel_id,
                                last_activity: now,
                                ..old(self)@.sessions[p]
                            },
                        ),
                    )
                },
            },
    {
        let position = match self.find(token) {
            Some(position) => position,
            None => {
                return Err(StatusCode(BAD_SESSION_ID_INVALID));
            },
        };
        if self.session(position).is_expired(&now) {
            return Err(StatusCode(BAD_SESSION_CLOSED));
        }
        if !identity_accepted {
            return Err(StatusCode(BAD_IDENTITY_TOKEN_REJECTED));
        }
        let session = self.session_mut(position);
        session.set_activated(true);
        session.set_secure_channel_id(secure_channel_id);
        session.set_last_activity(now);
        Ok(())
    }

    /// Judges a request that names the session with the authentication
    /// token `token` and arrives on the channel `secure_channel_id` at the
    /// time `now`. Returns the position of the session, and notes the time
    /// as that of its last request. Fails, changing nothing, with
    /// `BAD_SESSION_ID_INVALID` where there is no such session, with
    /// `BAD_SECURE_CHANNEL_ID_INVALID` where it speaks on another channel,
    /// with `BAD_SESSION_CLOSED` where it has been silent for longer than
    /// its timeout, and with `BAD_SESSION_NOT_ACTIVATED` where it is not
    /// activated.
    pub fn session_for_request(&mut self, token: &NodeId, secure_channel_id: u32, now: DateTime) -> (r:
        Result<usize, StatusCode>)
        ensures
            r matches Ok(q) ==> session_position(old(self)@.sessions, token@) == Some(q as int),
            match session_position(old(self)@.sessions, token@) {
                None => r == Err::<usize, StatusCode>(StatusCode(BAD_SESSION_ID_INVALID)) && final(self)@ == old(self)@,
                Some(p) => match request_status(old(self)@.sessions[p], secure_channel_id, now) {
                    Some(status) => r == Err::<usize, StatusCode>(status) && final(self)@ == old(self)@,
                    None => r == Ok::<usize, StatusCode>(p as usize) && final(self)@ == old(self)@.with_sessions(
                        old(self)@.sessions.update(
                            p,
                            SessionView { last_activity: now, ..old(self)@.sessions[p] },
                        ),
                    ),
                },
            },
    {
        let position = match self.find(token) {
            Some(position) => position,
            None => {
                return Err(StatusCode(BAD_SESSION_ID_INVALID));
            },
        };
        let session = self.session(position);
        if session.secure_channel_id() != secure_channel_id {
            return Err(StatusCode(BAD_SECURE_CHANNEL_ID_INVALID));
        }
        if session.is_expired(&now) {
            return Err(StatusCode(BAD_SESSION_CLOSED));
        }
        if !session.is_activated() {
            return Err(StatusCode(BAD_SESSION_NOT_ACTIVATED));
        }
        let session = self.session_mut(position);
        session.set_last_activity(now);
        Ok(position)
    }

    /// Ends the session with the authentication token `token`, on behalf
    /// of a request that arrives on the channel `secure_channel_id`, and
    /// returns it: its subscriptions and continuation points end with it.
    /// Fails, changing nothing, with `BAD_SESSION_ID_INVALID` where there
    /// is no such session, and with `BAD_SECURE_CHANNEL_ID_INVALID` where
    /// it speaks on another channel.
    pub fn close_session(&mut self, token: &NodeId, secure_channel_id: u32) -> (r: Result<
        Session,
        StatusCode,
    >)
        ensures
            match session_position(old(self)@.sessions, token@) {
                None => r matches Err(status) && status == StatusCode(BAD_SESSION_ID_INVALID)
                    && final(self)@ == old(self)@,
                Some(p) => if old(self)@.sessions[p].secure_channel_id != secure_channel_id {
                    r matches Err(status) && status == StatusCode(BAD_SECURE_CHANNEL_ID_INVALID)
                        && final(self)@ == old(self)@
                } else {
                    r matches Ok(session) && session@ == old(self)@.sessions[p] && final(self)@
                        == old(self)@.with_sessions(old(self)@.sessions.remove(p))
                },
            },
    {
        let position = match self.find(token) {
            Some(position) => position,
            None => {
                return Err(StatusCode(BAD_SESSION_ID_INVALID));
            },
        };
        if self.session(position).secure_channel_id() != secure_channel_id {
            return Err(StatusCode(BAD_SECURE_CHANNEL_ID_INVALID));
        }
        let ghost before = self@;
        assert(self.sessions[position as int]@ == before.sessions[position as int]);
        let session = self.sessions.remove(position);
        assert(self@.sessions =~= before.sessions.remove(position as int));
        Ok(session)
    }

    /// Drops the sessions that do not outlive a sweep, and returns how
    /// many were dropped.
    fn sweep(&mut self, now: DateTime, closed_channel: Option<u32>) -> (r: usize)
        ensures
            final(self)@ == old(self)@.with_sessions(
                kept_sessions_upto(
                    old(self)@.sessions,
                    now,
                    closed_channel,
                    old(self)@.sessions.len() as int,
                ),
            ),
            r == old(self)@.sessions.len() - final(self)@.sessions.len(),
    {
        let ghost sessions = self@.sessions;
        let ghost mut seen: int = 0;
        let mut dropped: usize = 0;
        assert(sessions.len() == self.sessions.len());
        let mut i: usize = 0;
        assert(self@.sessions =~= kept_sessions_upto(sessions, now, closed_channel, 0)
            + sessions.skip(0));
        while i < self.sessions.len()
            invariant
                0 <= seen <= sessions.len(),
                sessions == old(self)@.sessions,
                i == kept_sessions_upto(sessions, now, closed_channel, seen).len(),
                dropped == seen - i,
                sessions.len() <= usize::MAX,
                self@ == old(self)@.with_sessions(self@.sessions),
                self@.sessions == kept_sessions_upto(sessions, now, closed_channel, seen)
                    + sessions.skip(seen),
                self@.sessions.len() == self.sessions.len(),
            decreases self.sessions.len() - i,
        {
            let ghost before = self@.sessions;
            assert(self.sessions[i as int]@ == before[i as int]);
            assert(before[i as int] == sessions[seen]);
            let keep = match closed_channel {
                Some(secure_channel_id) => self.sessions[i].secure_channel_id()
                    != secure_channel_id,
                None => !self.sessions[i].is_expired(&now),
            };
            if keep {
                i = i + 1;
                proof {
                    assert(before =~= kept_sessions_upto(sessions, now, closed_channel, seen + 1)
                        + sessions.skip(seen + 1));
                }
            } else {
                let _ = self.sessions.remove(i);
                dropped = dropped + 1;
                proof {
                    assert(self@.sessions =~= before.remove(i as int));
                    assert(before.remove(i as int) =~= kept_sessions_upto(
                        sessions,
                        now,
                        closed_channel,
                        seen + 1,
                    ) + sessions.skip(seen + 1));
                }
            }
            proof {
                seen = seen + 1;
            }
        }
        proof {
            assert(seen == sessions.len());
            assert(self@.sessions =~= kept_sessions_upto(
                sessions,
                now,
                closed_channel,
                sessions.len() as int,
            ));
        }
        dropped
    }

    /// Ends the sessions that have been silent for longer than their
    /// timeout at the time `now`, and returns how many were ended.
    pub fn remove_expired_sessions(&mut self, now: DateTime) -> (r: usize)
        ensures
            final(self)@ == old(self)@.with_sessions(
                kept_sessions_upto(
                    old(self)@.sessions,
                    now,
                    None,
                    old(self)@.sessions.len() as int,
                ),
            ),
            r == old(self)@.sessions.len() - final(self)@.sessions.len(),
    {
        self.sweep(now, None)
    }

    /// Ends the sessions that speak on the channel `secure_channel_id`,
    /// which is closed, and returns how many were ended.
    pub fn close_secure_channel(&mut self, secure_channel_id: u32) -> (r: usize)
        ensures
            final(self)@ == old(self)@.with_sessions(
                kept_sessions_upto(
                    old(self)@.sessions,
                    DateTime { ticks: 0 },
                    Some(secure_channel_id),
                    old(self)@.sessions.len() as int,
                ),
            ),
            r == old(self)@.sessions.len() - final(self)@.sessions.len(),
    {
        self.sweep(DateTime { ticks: 0 }, Some(secure_channel_id))
    }
}

/// The sessions that outlive a sweep are sessions that were there, and
/// each of them is kept.
pub proof fn lemma_kept_sessions_are_kept(
    sessions: Seq<SessionView>,
    now: DateTime,
    closed_channel: Option<u32>,
    n: int,
)
    requires
        n <= sessions.len(),
    ensures
        forall|i: int|
            0 <= i < kept_sessions_upto(sessions, now, closed_channel, n).len() ==> is_kept(
                #[trigger] kept_sessions_upto(sessions, now, closed_channel, n)[i],
                now,
                closed_channel,
            ) && sessions.contains(kept_sessions_upto(sessions, now, closed_channel, n)[i]),
    decreases n,
{
    if n > 0 {
        lemma_kept_sessions_are_kept(sessions, now, closed_channel, n - 1);
        let before = kept_sessions_upto(sessions, now, closed_channel, n - 1);
        let kept = kept_sessions_upto(sessions, now, closed_channel, n);
        assert forall|i: int| 0 <= i < kept.len() implies is_kept(
            #[trigger] kept[i],
            now,
            closed_channel,
        ) && sessions.contains(kept[i]) by {
            if i < before.len() {
                assert(kept[i] == before[i]);
            } else {
                assert(kept[i] == sessions[n - 1]);
            }
        }
    }
}

/// After a session has been activated on a channel, a request that names
/// it and arrives on another channel is refused with
/// `BAD_SECURE_CHANNEL_ID_INVALID`: the channel that the session spoke on
/// before may no longer use it.
pub proof fn lemma_activation_binds_the_channel(
    session: SessionView,
    secure_channel_id: u32,
    other_channel: u32,
    now: DateTime,
    later: DateTime,
)
    requires
        other_channel != secure_channel_id,
    ensures
        request_status(
            SessionView { activated: true, secure_channel_id, last_activity: now, ..session },
            other_channel,
            later,
        ) == Some(StatusCode(BAD_SECURE_CHANNEL_ID_INVALID)),
{
}

/// A session that is not activated is refused, and one that has been
/// silent for longer than its timeout is closed.
pub proof fn lemma_requests_need_a_live_activated_session(
    session: SessionView,
    now: DateTime,
)
    ensures
        session.is_expired(now) ==> request_status(session, session.secure_channel_id, now) == Some(
            StatusCode(BAD_SESSION_CLOSED),
        ),
        !session.is_expired(now) && !session.activated ==> request_status(
            session,
            session.secure_channel_id,
            now,
        ) == Some(StatusCode(BAD_SESSION_NOT_ACTIVATED)),
        !session.is_expired(now) && session.activated ==> request_status(
            session,
            session.secure_channel_id,
            now,
        ) is None,
{
}

} // verus!
