//! The session store, in memory.

use vstd::prelude::*;
use crate::data_type::id::Id;
use crate::entity::session::{Session, SessionView};
use crate::mock::table::{lemma_filed_value, Record, Table};
use crate::repository::session_repository::{
    has_token,
    holds,
    without_user,
    SessionRepositoryError,
    SessionRepositoryTrait,
};

verus! {

impl Record for Session {
    open spec fn key_of(value: SessionView) -> Seq<char> {
        value.id
    }

    fn key(&self) -> (id: &Id) {
        &self.id
    }

    fn duplicate(&self) -> (copy: Session) {
        self.clone()
    }
}

/// The first session of the table that carries `token`, if there is one.
pub fn find_by_token(sessions: &Table<Session>, token: &String) -> (found: Option<Session>)
    ensures
        match found {
            Some(session) => holds(sessions.map(), session@) && session@.token == token@,
            None => !has_token(sessions.map(), token@),
        },
{
    let mut i: usize = 0;
    while i < sessions.len()
        invariant
            i <= sessions.rows().len(),
            forall|j: int| 0 <= j < i ==> (#[trigger] sessions.rows()[j]).token != token@,
        decreases sessions.rows().len() - i,
    {
        let session = sessions.row(i);
        if session.token == *token {
            return Some(session.clone());
        }
        i += 1;
    }
    proof {
        assert forall|id: Seq<char>| #[trigger]
            sessions.map().contains_key(id) implies sessions.map()[id].token != token@ by {
            lemma_filed_value::<Session>(sessions.rows(), id);
        }
    }
    None
}

/// Takes every session of the user `user_id` out of the table.
pub fn delete_users_sessions(sessions: &mut Table<Session>, user_id: &Id)
    ensures
        final(sessions).map() == without_user(old(sessions).map(), user_id@),
{
    let ghost before = sessions.map();
    let mut i: usize = 0;
    while i < sessions.len()
        invariant
            i <= sessions.rows().len(),
            forall|j: int| 0 <= j < i ==> (#[trigger] sessions.rows()[j]).user_id != user_id@,
            sessions.map().submap_of(before),
            without_user(before, user_id@).submap_of(sessions.map()),
        decreases sessions.rows().len() - i,
    {
        let ghost rows = sessions.rows();
        let ghost map = sessions.map();
        let session = sessions.row(i);
        if session.user_id == *user_id {
            sessions.discard(i);
            proof {
                assert forall|j: int| 0 <= j < i implies (#[trigger] sessions.rows()[j]).user_id
                    != user_id@ by {
                    assert(sessions.rows()[j] == rows[j]);
                }
                let gone = rows[i as int].id;
                assert(map[gone].user_id == user_id@);
                assert forall|id: Seq<char>| #[trigger]
                    without_user(before, user_id@).contains_key(id) implies sessions.map().contains_key(
                    id,
                ) && sessions.map()[id] == without_user(before, user_id@)[id] by {
                    assert(map.contains_key(id));
                    assert(id != gone);
                }
            }
        } else {
            i += 1;
        }
    }
    proof {
        assert forall|id: Seq<char>| #[trigger]
            sessions.map().contains_key(id) implies sessions.map()[id].user_id != user_id@ by {
            lemma_filed_value::<Session>(sessions.rows(), id);
        }
        assert(sessions.map() =~= without_user(before, user_id@));
    }
}

/// Sessions kept in memory.
pub struct SessionRepositoryMock {
    sessions: Table<Session>,
}

impl SessionRepositoryMock {
    pub fn new() -> (repository: SessionRepositoryMock)
        ensures
            repository.sessions() == Map::<Seq<char>, SessionView>::empty(),
    {
        SessionRepositoryMock { sessions: Table::new() }
    }
}

impl Default for SessionRepositoryMock {
    fn default() -> (repository: SessionRepositoryMock)
        ensures
            repository.sessions() == Map::<Seq<char>, SessionView>::empty(),
    {
        SessionRepositoryMock::new()
    }
}

impl SessionRepositoryTrait for SessionRepositoryMock {
    closed spec fn sessions(&self) -> Map<Seq<char>, SessionView> {
        self.sessions.map()
    }

    open spec fn reliable(&self) -> bool {
        true
    }

    open spec fn broken(&self) -> bool {
        false
    }

    open spec fn fails_with(&self, error: SessionRepositoryError) -> bool {
        false
    }

    fn find(&self, id: &Id) -> (found: Option<Session>) {
        self.sessions.get(id)
    }

    fn find_by_token(&self, token: String) -> (found: Option<Session>) {
        find_by_token(&self.sessions, &token)
    }

    fn save(&mut self, session: &Session) -> (saved: Result<(), SessionRepositoryError>) {
        self.sessions.put(session.clone());
        Ok(())
    }

    fn delete_users_sessions(&mut self, user_id: &Id) -> (deleted: Result<
        (),
        SessionRepositoryError,
    >) {
        delete_users_sessions(&mut self.sessions, user_id);
        Ok(())
    }
}

} // verus!
