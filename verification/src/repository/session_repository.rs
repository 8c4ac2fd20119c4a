//! The session store.

use vstd::prelude::*;
use crate::data_type::id::Id;
use crate::entity::session::{Session, SessionView};

verus! {

/// Why the session store failed.
#[derive(Debug, Clone, Copy, PartialEq, Eq, Structural)]
pub enum SessionRepositoryError {
    Save,
    Delete,
}

/// Whether some session of the store carries `token`.
pub open spec fn has_token(sessions: Map<Seq<char>, SessionView>, token: Seq<char>) -> bool {
    exists|id: Seq<char>| #[trigger] sessions.contains_key(id) && sessions[id].token == token
}

/// Whether the store holds `session`, under the session's own identifier.
pub open spec fn holds(sessions: Map<Seq<char>, SessionView>, session: SessionView) -> bool {
    sessions.contains_key(session.id) && sessions[session.id] == session
}

/// The store without the sessions of the user `user_id`: every one of them
/// is gone, every other session is kept.
pub open spec fn without_user(sessions: Map<Seq<char>, SessionView>, user_id: Seq<char>) -> Map<
    Seq<char>,
    SessionView,
> {
    Map::new(
        |id: Seq<char>| sessions.contains_key(id) && sessions[id].user_id != user_id,
        |id: Seq<char>| sessions[id],
    )
}

/// The store of sessions.
pub trait SessionRepositoryTrait {
    /// The sessions in the store, each under the printed form of its
    /// identifier.
    open spec fn sessions(&self) -> Map<Seq<char>, SessionView> {
        arbitrary()
    }

    /// Whether the store cannot fail: every save and every deletion
    /// succeeds. Unless an implementation says so, it can.
    open spec fn reliable(&self) -> bool {
        false
    }

    /// Whether the store cannot save: every save into it fails. Unless an
    /// implementation says so, it can.
    open spec fn broken(&self) -> bool {
        false
    }

    /// Whether a save or a deletion may fail with `error`. Unless an
    /// implementation says more, it may fail with any.
    open spec fn fails_with(&self, error: SessionRepositoryError) -> bool {
        true
    }

    /// The session with the identifier `id`, if the store has one.
    fn find(&self, id: &Id) -> (found: Option<Session>)
        ensures
            match found {
                Some(session) => self.sessions().contains_key(id@) && session@
                    == self.sessions()[id@] && session@.id == id@,
                None => !self.sessions().contains_key(id@),
            },
    ;

    /// A session that carries `token`, if the store has one. Where several
    /// sessions carry it, which of them is found is left open.
    fn find_by_token(&self, token: String) -> (found: Option<Session>)
        ensures
            match found {
                Some(session) => holds(self.sessions(), session@) && session@.token == token@,
                None => !has_token(self.sessions(), token@),
            },
    ;

    /// Stores `session` under its identifier. A save that fails stores
    /// nothing.
    fn save(&mut self, session: &Session) -> (saved: Result<(), SessionRepositoryError>)
        ensures
            saved is Ok ==> final(self).sessions() == old(self).sessions().insert(
                session@.id,
                session@,
            ),
            saved is Err ==> final(self).sessions() == old(self).sessions(),
            old(self).reliable() ==> saved is Ok,
            old(self).broken() ==> saved is Err,
            saved matches Err(error) ==> old(self).fails_with(error),
            final(self).reliable() == old(self).reliable(),
            final(self).broken() == old(self).broken(),
    ;

    /// Deletes every session of the user `user_id`. A deletion that fails
    /// may have deleted some of them, and has touched no other session.
    fn delete_users_sessions(&mut self, user_id: &Id) -> (deleted: Result<
        (),
        SessionRepositoryError,
    >)
        ensures
            deleted is Ok ==> final(self).sessions() == without_user(
                old(self).sessions(),
                user_id@,
            ),
            deleted is Err ==> final(self).sessions().submap_of(old(self).sessions())
                && without_user(old(self).sessions(), user_id@).submap_of(final(self).sessions()),
            old(self).reliable() ==> deleted is Ok,
            deleted matches Err(error) ==> old(self).fails_with(error),
            final(self).reliable() == old(self).reliable(),
            final(self).broken() == old(self).broken(),
    ;
}

} // verus!
