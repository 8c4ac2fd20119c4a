//! A store of authenticated users that is out of order.

use vstd::prelude::*;
use crate::data_type::id::Id;
use crate::entity::user::{AuthenticatedUser, AuthenticatedUserView};
use crate::mock::table::Table;
use crate::repository::user_repository::{AuthenticatedUserRepositoryTrait, SavingUserError};

verus! {

/// Authenticated users behind a store that answers no call: every lookup
/// and every save fails.
pub struct AuthenticatedRepositoryMockOutOfOrder {
    users: Table<AuthenticatedUser>,
}

impl AuthenticatedRepositoryMockOutOfOrder {
    pub fn new() -> (repository: AuthenticatedRepositoryMockOutOfOrder)
        ensures
            repository.users() == Map::<Seq<char>, AuthenticatedUserView>::empty(),
    {
        AuthenticatedRepositoryMockOutOfOrder { users: Table::new() }
    }
}

impl Default for AuthenticatedRepositoryMockOutOfOrder {
    fn default() -> (repository: AuthenticatedRepositoryMockOutOfOrder)
        ensures
            repository.users() == Map::<Seq<char>, AuthenticatedUserView>::empty(),
    {
        AuthenticatedRepositoryMockOutOfOrder::new()
    }
}

impl AuthenticatedUserRepositoryTrait for AuthenticatedRepositoryMockOutOfOrder {
    closed spec fn users(&self) -> Map<Seq<char>, AuthenticatedUserView> {
        self.users.map()
    }

    open spec fn reliable(&self) -> bool {
        false
    }

    open spec fn broken(&self) -> bool {
        true
    }

    open spec fn fails_with(&self, error: SavingUserError) -> bool {
        error == SavingUserError::Authenticated
    }

    /// Always fails, with [`SavingUserError::Authenticated`].
    fn find(&self, id: &Id) -> (found: Result<Option<AuthenticatedUser>, SavingUserError>)
        ensures
            found == Err::<Option<AuthenticatedUser>, SavingUserError>(
                SavingUserError::Authenticated,
            ),
    {
        Err(SavingUserError::Authenticated)
    }

    /// Always fails, with [`SavingUserError::Authenticated`].
    fn save(&mut self, user: &AuthenticatedUser) -> (saved: Result<(), SavingUserError>)
        ensures
            saved == Err::<(), SavingUserError>(SavingUserError::Authenticated),
    {
        Err(SavingUserError::Authenticated)
    }
}

} // verus!
