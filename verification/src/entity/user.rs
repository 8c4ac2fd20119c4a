//! The caller of the application: anonymous or authenticated.

use vstd::prelude::*;
use argentum_standard_business::data_type::email::EmailAddress;
use crate::data_type::id::Id;
use crate::value_object::name::{Name, NameView};

verus! {

/// A validated e-mail address. The library carries it through unread.
#[verifier::external_type_specification]
#[verifier::external_body]
pub struct ExEmailAddress(EmailAddress);

/// `EmailAddress::clone`, as `derive(Clone)` wrote it for a struct of one
/// `String`: the copy is the same address.
pub assume_specification[ <EmailAddress as Clone>::clone ](email: &EmailAddress) -> (copy:
    EmailAddress)
    ensures
        copy == *email,
;

/// The mathematical value of an [`AnonymousUser`].
pub struct AnonymousUserView {
    pub id: Seq<char>,
}

/// The mathematical value of an [`AuthenticatedUser`].
pub struct AuthenticatedUserView {
    pub id: Seq<char>,
    pub name: NameView,
    pub email: EmailAddress,
}

/// The mathematical value of a [`User`].
pub enum UserView {
    Anonymous(AnonymousUserView),
    Authenticated(AuthenticatedUserView),
}

/// What every kind of user has: an identifier.
pub trait UserTrait {
    /// The printed form of the user's identifier.
    spec fn id_view(&self) -> Seq<char>;

    fn id(&self) -> (id: &Id)
        ensures
            id@ == self.id_view(),
    ;
}

/// A caller with no durable profile.
#[derive(Debug)]
pub struct AnonymousUser {
    pub id: Id,
}

impl View for AnonymousUser {
    type V = AnonymousUserView;

    open spec fn view(&self) -> AnonymousUserView {
        AnonymousUserView { id: self.id@ }
    }
}

impl AnonymousUser {
    pub fn new(id: &Id) -> (user: AnonymousUser)
        ensures
            user@ == (AnonymousUserView { id: id@ }),
    {
        AnonymousUser { id: id.clone() }
    }
}

impl UserTrait for AnonymousUser {
    open spec fn id_view(&self) -> Seq<char> {
        self.id@
    }

    fn id(&self) -> (id: &Id) {
        &self.id
    }
}

impl Clone for AnonymousUser {
    fn clone(&self) -> (user: AnonymousUser)
        ensures
            user@ == self@,
    {
        AnonymousUser { id: self.id.clone() }
    }
}

/// A caller with a registered profile.
pub struct AuthenticatedUser {
    pub id: Id,
    pub name: Name,
    pub email: EmailAddress,
}

impl View for AuthenticatedUser {
    type V = AuthenticatedUserView;

    open spec fn view(&self) -> AuthenticatedUserView {
        AuthenticatedUserView { id: self.id@, name: self.name@, email: self.email }
    }
}

impl AuthenticatedUser {
    pub fn new(id: &Id, name: Name, email: EmailAddress) -> (user: AuthenticatedUser)
        ensures
            user@ == (AuthenticatedUserView { id: id@, name: name@, email: email }),
    {
        AuthenticatedUser { id: id.clone(), name, email }
    }
}

impl UserTrait for AuthenticatedUser {
    open spec fn id_view(&self) -> Seq<char> {
        self.id@
    }

    fn id(&self) -> (id: &Id) {
        &self.id
    }
}

impl Clone for AuthenticatedUser {
    fn clone(&self) -> (user: AuthenticatedUser)
        ensures
            user@ == self@,
    {
        AuthenticatedUser {
            id: self.id.clone(),
            name: self.name.clone(),
            email: self.email.clone(),
        }
    }
}

/// The current caller: exactly one of the two kinds.
pub enum User {
    Anonymous(AnonymousUser),
    Authenticated(AuthenticatedUser),
}

impl View for User {
    type V = UserView;

    open spec fn view(&self) -> UserView {
        match self {
            User::Anonymous(user) => UserView::Anonymous(user@),
            User::Authenticated(user) => UserView::Authenticated(user@),
        }
    }
}

} // verus!
