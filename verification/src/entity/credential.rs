//! Password credentials of registered users.

use vstd::prelude::*;
use crate::data_type::id::Id;

verus! {

/// The mathematical value of a [`PasswordCredential`].
pub struct PasswordCredentialView {
    pub user_id: Seq<char>,
    pub password: Seq<char>,
    pub salt: Seq<char>,
}

/// The hashed password of one user, with the salt it was hashed with.
#[derive(Debug)]
pub struct PasswordCredential {
    pub user_id: Id,
    pub password: String,
    pub salt: String,
}

impl View for PasswordCredential {
    type V = PasswordCredentialView;

    open spec fn view(&self) -> PasswordCredentialView {
        PasswordCredentialView {
            user_id: self.user_id@,
            password: self.password@,
            salt: self.salt@,
        }
    }
}

impl PasswordCredential {
    pub fn new(user_id: Id, password: String, salt: String) -> (credential: PasswordCredential)
        ensures
            credential@ == (PasswordCredentialView {
                user_id: user_id@,
                password: password@,
                salt: salt@,
            }),
    {
        PasswordCredential { user_id, password, salt }
    }
}

impl Clone for PasswordCredential {
    fn clone(&self) -> (credential: PasswordCredential)
        ensures
            credential@ == self@,
    {
        PasswordCredential {
            user_id: self.user_id.clone(),
            password: self.password.clone(),
            salt: self.salt.clone(),
        }
    }
}

} // verus!
