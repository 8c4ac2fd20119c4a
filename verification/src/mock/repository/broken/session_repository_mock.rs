//! A session store that cannot save.

use vstd::prelude::*;
use crate::data_type::id::Id;
use crate::entity::session::{Session, SessionView};
use crate::mock::repository::session_repository_mock::{delete_users_sessions, find_by_token};
use crate::mock::table::Table;
use crate::repository::session_repository::{SessionRepositoryError, SessionRepositoryTrait};

verus! {

/// Sessions kept in memory, in a store whose save always fails.
pub struct SessionRepositoryMockWithBrokenSave {
    sessions: Table<Session>,
}

impl SessionRepositoryMockWithBrokenSave {
    pub fn new() -> (repository: SessionRepositoryMockWithBrokenSave)
        ensures
            repository.sessions() == Map::<Seq<char>, SessionView>::empty(),
    {
        SessionRepositoryMockWithBrokenSave { sessions: Table::new() }
    }
}

impl Default for SessionRepositoryMockWithBrokenSave {
    fn default() -> (repository: SessionRepositoryMockWithBrokenSave)
        ensures
            repository.sessions() == Map::<Seq<char>, SessionView>::empty(),
    {
        SessionRepositoryMockWithBrokenSave::new()
    }
}

impl SessionRepositoryTrait for SessionRepositoryMockWithBrokenSave {
    closed spec fn sessions(&self) -> Map<Seq<char>, SessionView> {
        self.sessions.map()
    }

    open spec fn reliable(&self) -> bool {
        false
    }

    open spec fn broken(&self) -> bool {
        true
    }

    open spec fn fails_with(&self, error: SessionRepositoryError) -> bool {
        error == SessionRepositoryError::Save
    }

    fn find(&self, id: &Id) -> (found: Option<Session>) {
        self.sessions.get(id)
    }

    fn find_by_token(&self, token: String) -> (found: Option<Session>) {
        find_by_token(&self.sessions, &token)
    }

    /// Always fails, with [`SessionRepositoryError::Save`].
    fn save(&mut self, session: &Session) -> (saved: Result<(), SessionRepositoryError>)
        ensures
            saved == Err::<(), SessionRepositoryError>(SessionRepositoryError::Save),
    {
        Err(SessionRepositoryError::Save)
    }

    /// Always succeeds.
    fn delete_users_sessions(&mut self, user_id: &Id) -> (deleted: Result<
        (),
        SessionRepositoryError,
    >)
        ensures
            deleted is Ok,
    {
        delete_users_sessions(&mut self.sessions, user_id);
        Ok(())
    }
}

} // verus!
