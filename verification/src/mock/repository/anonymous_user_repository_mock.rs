//! The store of anonymous users, in memory.

use vstd::prelude::*;
use crate::data_type::id::Id;
use crate::entity::user::{AnonymousUser, AnonymousUserView};
use crate::mock::table::{Record, Table};
use crate::repository::user_repository::{AnonymousUserRepositoryTrait, SavingUserError};

verus! {

impl Record for AnonymousUser {
    open spec fn key_of(value: AnonymousUserView) -> Seq<char> {
        value.id
    }

    fn key(&self) -> (id: &Id) {
        &self.id
    }

    fn duplicate(&self) -> (copy: AnonymousUser) {
        self.clone()
    }
}

/// Anonymous users kept in memory.
pub struct AnonymousUserRepositoryMock {
    users: Table<AnonymousUser>,
}

impl AnonymousUserRepositoryMock {
    pub fn new() -> (repository: AnonymousUserRepositoryMock)
        ensures
            repository.users() == Map::<Seq<char>, AnonymousUserView>::empty(),
    {
        AnonymousUserRepositoryMock { users: Table::new() }
    }

    /// Deletes the user with the identifier `id`, if the store has one.
    pub fn delete(&mut self, id: &Id)
        ensures
            final(self).users() == old(self).users().remove(id@),
    {
        self.users.remove(id);
    }
}

impl Default for AnonymousUserRepositoryMock {
    fn default() -> (repository: AnonymousUserRepositoryMock)
        ensures
            repository.users() == Map::<Seq<char>, AnonymousUserView>::empty(),
    {
        AnonymousUserRepositoryMock::new()
    }
}

impl AnonymousUserRepositoryTrait for AnonymousUserRepositoryMock {
    closed spec fn users(&self) -> Map<Seq<char>, AnonymousUserView> {
        self.users.map()
    }

    open spec fn reliable(&self) -> bool {
        true
    }

    open spec fn broken(&self) -> bool {
        false
    }

    open spec fn fails_with(&self, error: SavingUserError) -> bool {
        false
    }

    fn find(&self, id: &Id) -> (found: Option<AnonymousUser>) {
        self.users.get(id)
    }

    fn save(&mut self, user: &AnonymousUser) -> (saved: Result<(), SavingUserError>) {
        self.users.put(user.clone());
        Ok(())
    }
}

} // verus!
