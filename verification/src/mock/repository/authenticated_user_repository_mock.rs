//! The store of authenticated users, in memory.

use vstd::prelude::*;
use crate::data_type::id::Id;
use crate::entity::user::{AuthenticatedUser, AuthenticatedUserView};
use crate::mock::table::{Record, Table};
use crate::repository::user_repository::{AuthenticatedUserRepositoryTrait, SavingUserError};

verus! {

impl Record for AuthenticatedUser {
    open spec fn key_of(value: AuthenticatedUserView) -> Seq<char> {
        value.id
    }

    fn key(&self) -> (id: &Id) {
        &self.id
    }

    fn duplicate(&self) -> (copy: AuthenticatedUser) {
        self.clone()
    }
}

/// Authenticated users kept in memory.
pub struct AuthenticatedUserRepositoryMock {
    users: Table<AuthenticatedUser>,
}

impl AuthenticatedUserRepositoryMock {
    pub fn new() -> (repository: AuthenticatedUserRepositoryMock)
        ensures
            repository.users() == Map::<Seq<char>, AuthenticatedUserView>::empty(),
    {
        AuthenticatedUserRepositoryMock { users: Table::new() }
    }

    /// Deletes the user with the identifier `id`, if the store has one.
    pub fn delete(&mut self, id: &Id)
        ensures
            final(self).users() == old(self).users().remove(id@),
    {
        self.users.remove(id);
    }
}

impl Default for AuthenticatedUserRepositoryMock {
    fn default() -> (repository: AuthenticatedUserRepositoryMock)
        ensures
            repository.users() == Map::<Seq<char>, AuthenticatedUserView>::empty(),
    {
        AuthenticatedUserRepositoryMock::new()
    }
}

impl AuthenticatedUserRepositoryTrait for AuthenticatedUserRepositoryMock {
    closed spec fn users(&self) -> Map<Seq<char>, AuthenticatedUserView> {
        self.users.map()
    }

    open spec fn reliable(&self) -> bool {
        true
    }

    open spec fn broken(&self) -> bool {
        false
    }

    open spec fn fails_with(&self, error: SavingUserError) -> bool {
        false
    }

    fn find(&self, id: &Id) -> (found: Result<Option<AuthenticatedUser>, SavingUserError>) {
        Ok(self.users.get(id))
    }

    fn save(&mut self, user: &AuthenticatedUser) -> (saved: Result<(), SavingUserError>) {
        self.users.put(user.clone());
        Ok(())
    }
}

} // verus!
