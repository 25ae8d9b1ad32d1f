//! Per-user session state, created on a user's first message and kept for
//! the life of the process.

use std::collections::HashMap;
use vstd::prelude::*;

verus! {

broadcast use vstd::std_specs::hash::group_hash_axioms;

/// The state kept for one user.
///
/// `conversation` identifies the user's conversation thread: it is the
/// number of sessions that existed when this one was created, so no two
/// sessions share it. The history of the thread is kept by whoever serves
/// the conversation-default command, under this handle.
#[derive(Clone, Copy, Debug, PartialEq, Eq, Structural)]
pub struct Session {
    pub user_id: u64,
    pub chat_mode: bool,
    /// Seconds since the Unix epoch of the last message received.
    pub last_activity: i64,
    pub conversation: u64,
}

/// The session a user gets on first contact.
pub open spec fn fresh_session(user_id: u64, conversation: u64, now: i64) -> Session {
    Session { user_id, chat_mode: false, last_activity: now, conversation }
}

/// All sessions, keyed by user id.
#[derive(Debug)]
pub struct SessionRegistry {
    sessions: HashMap<u64, Session>,
}

impl SessionRegistry {
    pub closed spec fn view(&self) -> Map<u64, Session> {
        self.sessions@
    }

    /// Each session sits under its own user id, and conversation handles
    /// are distinct and below the number of sessions.
    pub open spec fn wf(&self) -> bool {
        &&& forall|u: u64| #[trigger] self@.contains_key(u) ==> self@[u].user_id == u
        &&& forall|u: u64| #[trigger]
            self@.contains_key(u) ==> (self@[u].conversation as int) < self@.len()
        &&& forall|u: u64, v: u64|
            #![trigger self@[u], self@[v]]
            self@.contains_key(u) && self@.contains_key(v) && u != v ==> self@[u].conversation
                != self@[v].conversation
    }

    pub fn new() -> (r: Self)
        ensures
            r.wf(),
            r@ == Map::<u64, Session>::empty(),
    {
        SessionRegistry { sessions: HashMap::new() }
    }

    /// The number of sessions.
    pub fn len(&self) -> (r: usize)
        ensures
            r == self@.len(),
    {
        self.sessions.len()
    }

    /// The session of `user_id`, if the user has written before.
    pub fn get(&self, user_id: u64) -> (r: Option<Session>)
        ensures
            r matches Some(s) ==> self@.contains_key(user_id) && self@[user_id] == s,
            r is None ==> !self@.contains_key(user_id),
    {
        match self.sessions.get(&user_id) {
            Some(s) => Some(*s),
            None => None,
        }
    }

    /// The session of `user_id`, created with chat mode off if the user has
    /// none yet. Calling it again for the same user changes nothing.
    pub fn get_or_create(&mut self, user_id: u64, now: i64) -> (r: Session)
        requires
            old(self).wf(),
        ensures
            final(self).wf(),
            old(self)@.contains_key(user_id) ==> final(self)@ == old(self)@ && r == old(
                self,
            )@[user_id],
            !old(self)@.contains_key(user_id) ==> r == fresh_session(
                user_id,
                old(self)@.len() as u64,
                now,
            ) && final(self)@ == old(self)@.insert(user_id, r),
    {
        match self.sessions.get(&user_id) {
            Some(s) => *s,
            None => {
                let n = self.sessions.len() as u64;
                let s = Session { user_id, chat_mode: false, last_activity: now, conversation: n };
                self.sessions.insert(user_id, s);
                assert(self@.len() == old(self)@.len() + 1);
                s
            },
        }
    }

    /// Records activity of `user_id` at `now`.
    pub fn touch(&mut self, user_id: u64, now: i64)
        requires
            old(self).wf(),
            old(self)@.contains_key(user_id),
        ensures
            final(self).wf(),
            final(self)@ == old(self)@.insert(
                user_id,
                Session { last_activity: now, ..old(self)@[user_id] },
            ),
    {
        let s = *self.sessions.get(&user_id).unwrap();
        self.sessions.insert(user_id, Session { last_activity: now, ..s });
        assert(self@.dom() =~= old(self)@.dom());
    }

    /// Turns chat mode of `user_id` on or off.
    pub fn set_mode(&mut self, user_id: u64, chat_mode: bool)
        requires
            old(self).wf(),
            old(self)@.contains_key(user_id),
        ensures
            final(self).wf(),
            final(self)@ == old(self)@.insert(
                user_id,
                Session { chat_mode, ..old(self)@[user_id] },
            ),
    {
        let s = *self.sessions.get(&user_id).unwrap();
        self.sessions.insert(user_id, Session { chat_mode, ..s });
        assert(self@.dom() =~= old(self)@.dom());
    }

    /// Whether `user_id` is in conversation mode; a user without a session
    /// is not.
    pub fn is_chat_mode(&self, user_id: u64) -> (r: bool)
        ensures
            r == (self@.contains_key(user_id) && self@[user_id].chat_mode),
    {
        match self.sessions.get(&user_id) {
            Some(s) => s.chat_mode,
            None => false,
        }
    }

    /// The conversation handle of `user_id`.
    pub fn conversation_handle(&self, user_id: u64) -> (r: Option<u64>)
        ensures
            r matches Some(h) ==> self@.contains_key(user_id) && self@[user_id].conversation
                == h,
            r is None ==> !self@.contains_key(user_id),
    {
        match self.sessions.get(&user_id) {
            Some(s) => Some(s.conversation),
            None => None,
        }
    }
}

} // verus!
