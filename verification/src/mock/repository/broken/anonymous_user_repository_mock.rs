//! A store of anonymous users that cannot save.

use vstd::prelude::*;
use crate::data_type::id::Id;
use crate::entity::user::{AnonymousUser, AnonymousUserView};
use crate::mock::table::Table;
use crate::repository::user_repository::{AnonymousUserRepositoryTrait, SavingUserError};

verus! {

/// Anonymous users kept in memory, in a store whose save always fails.
pub struct AnonymousRepositoryMockWithBrokenSave {
    users: Table<AnonymousUser>,
}

impl AnonymousRepositoryMockWithBrokenSave {
    pub fn new() -> (repository: AnonymousRepositoryMockWithBrokenSave)
        ensures
            repository.users() == Map::<Seq<char>, AnonymousUserView>::empty(),
    {
        AnonymousRepositoryMockWithBrokenSave { users: Table::new() }
    }
}

impl Default for AnonymousRepositoryMockWithBrokenSave {
    fn default() -> (repository: AnonymousRepositoryMockWithBrokenSave)
        ensures
            repository.users() == Map::<Seq<char>, AnonymousUserView>::empty(),
    {
        AnonymousRepositoryMockWithBrokenSave::new()
    }
}

impl AnonymousUserRepositoryTrait for AnonymousRepositoryMockWithBrokenSave {
    closed spec fn users(&self) -> Map<Seq<char>, AnonymousUserView> {
        self.users.map()
    }

    open spec fn reliable(&self) -> bool {
        false
    }

    open spec fn broken(&self) -> bool {
        true
    }

    open spec fn fails_with(&self, error: SavingUserError) -> bool {
        error == SavingUserError::Anonymous
    }

    fn find(&self, id: &Id) -> (found: Option<AnonymousUser>) {
        self.users.get(id)
    }

    /// Always fails, with [`SavingUserError::Anonymous`].
    fn save(&mut self, user: &AnonymousUser) -> (saved: Result<(), SavingUserError>)
        ensures
            saved == Err::<(), SavingUserError>(SavingUserError::Anonymous),
    {
        Err(SavingUserError::Anonymous)
    }
}

} // verus!
