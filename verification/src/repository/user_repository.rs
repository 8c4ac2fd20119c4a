//! The two identity stores: one of anonymous users, one of authenticated
//! users.

use vstd::prelude::*;
use crate::data_type::id::Id;
use crate::entity::user::{AnonymousUser, AnonymousUserView, AuthenticatedUser, AuthenticatedUserView};

verus! {

/// Why an identity store failed.
#[derive(Debug, Clone, Copy, PartialEq, Eq, Structural)]
pub enum SavingUserError {
    Anonymous,
    Authenticated,
}

/// The store of anonymous users.
pub trait AnonymousUserRepositoryTrait {
    /// The users in the store, each under the printed form of its
    /// identifier.
    open spec fn users(&self) -> Map<Seq<char>, AnonymousUserView> {
        arbitrary()
    }

    /// Whether the store cannot fail: every save into it succeeds. Unless
    /// an implementation says so, it can.
    open spec fn reliable(&self) -> bool {
        false
    }

    /// Whether the store cannot save: every save into it fails. Unless an
    /// implementation says so, it can.
    open spec fn broken(&self) -> bool {
        false
    }

    /// Whether a save into the store may fail with `error`. Unless an
    /// implementation says more, it may fail with any.
    open spec fn fails_with(&self, error: SavingUserError) -> bool {
        true
    }

    /// The user with the identifier `id`, if the store has one.
    fn find(&self, id: &Id) -> (found: Option<AnonymousUser>)
        ensures
            match found {
                Some(user) => self.users().contains_key(id@) && user@ == self.users()[id@]
                    && user@.id == id@,
                None => !self.users().contains_key(id@),
            },
    ;

    /// Stores `user` under its identifier. A save that fails stores
    /// nothing.
    fn save(&mut self, user: &AnonymousUser) -> (saved: Result<(), SavingUserError>)
        ensures
            saved is Ok ==> final(self).users() == old(self).users().insert(user@.id, user@),
            saved is Err ==> final(self).users() == old(self).users(),
            old(self).reliable() ==> saved is Ok,
            old(self).broken() ==> saved is Err,
            saved matches Err(error) ==> old(self).fails_with(error),
            final(self).reliable() == old(self).reliable(),
            final(self).broken() == old(self).broken(),
    ;
}

/// The store of authenticated users.
pub trait AuthenticatedUserRepositoryTrait {
    /// The users in the store, each under the printed form of its
    /// identifier.
    open spec fn users(&self) -> Map<Seq<char>, AuthenticatedUserView> {
        arbitrary()
    }

    /// Whether the store cannot fail: every lookup and every save
    /// succeeds. Unless an implementation says so, it can.
    open spec fn reliable(&self) -> bool {
        false
    }

    /// Whether the store is out of order: every lookup and every save
    /// fails. Unless an implementation says so, it is not.
    open spec fn broken(&self) -> bool {
        false
    }

    /// Whether a lookup or a save may fail with `error`. Unless an
    /// implementation says more, it may fail with any.
    open spec fn fails_with(&self, error: SavingUserError) -> bool {
        true
    }

    /// The user with the identifier `id`, if the store has one. The lookup
    /// itself may fail; a failure says nothing about whether the user
    /// exists.
    fn find(&self, id: &Id) -> (found: Result<Option<AuthenticatedUser>, SavingUserError>)
        ensures
            match found {
                Ok(Some(user)) => self.users().contains_key(id@) && user@ == self.users()[id@]
                    && user@.id == id@,
                Ok(None) => !self.users().contains_key(id@),
                Err(_) => true,
            },
            self.reliable() ==> found is Ok,
            self.broken() ==> found is Err,
            found matches Err(error) ==> self.fails_with(error),
    ;

    /// Stores `user` under its identifier. A save that fails stores
    /// nothing.
    fn save(&mut self, user: &AuthenticatedUser) -> (saved: Result<(), SavingUserError>)
        ensures
            saved is Ok ==> final(self).users() == old(self).users().insert(user@.id, user@),
            saved is Err ==> final(self).users() == old(self).users(),
            old(self).reliable() ==> saved is Ok,
            old(self).broken() ==> saved is Err,
            saved matches Err(error) ==> old(self).fails_with(error),
            final(self).reliable() == old(self).reliable(),
            final(self).broken() == old(self).broken(),
    ;
}

} // verus!
