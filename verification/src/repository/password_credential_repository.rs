//! The store of password credentials.

use vstd::prelude::*;
use crate::data_type::id::Id;
use crate::entity::credential::{PasswordCredential, PasswordCredentialView};

verus! {

/// The store of password credentials, one per user.
pub trait PasswordCredentialRepository {
    /// The credentials in the store, each under the printed form of its
    /// user's identifier.
    open spec fn credentials(&self) -> Map<Seq<char>, PasswordCredentialView> {
        arbitrary()
    }

    /// Stores `cred` as the credential of its user.
    fn save(&mut self, cred: &PasswordCredential)
        ensures
            final(self).credentials() == old(self).credentials().insert(cred@.user_id, cred@),
    ;

    /// The credential of the user `id`, if the store has one.
    fn find_by_user_id(&self, id: &Id) -> (found: Option<PasswordCredential>)
        ensures
            match found {
                Some(cred) => self.credentials().contains_key(id@) && cred@
                    == self.credentials()[id@] && cred@.user_id == id@,
                None => !self.credentials().contains_key(id@),
            },
    ;

    /// Deletes the credential of the user of `cred`.
    fn delete(&mut self, cred: &PasswordCredential)
        ensures
            final(self).credentials() == old(self).credentials().remove(cred@.user_id),
    ;
}

} // verus!
