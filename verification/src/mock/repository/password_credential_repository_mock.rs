//! The store of password credentials, in memory.

use vstd::prelude::*;
use crate::data_type::id::Id;
use crate::entity::credential::{PasswordCredential, PasswordCredentialView};
use crate::mock::table::{Record, Table};
use crate::repository::password_credential_repository::PasswordCredentialRepository;

verus! {

impl Record for PasswordCredential {
    open spec fn key_of(value: PasswordCredentialView) -> Seq<char> {
        value.user_id
    }

    fn key(&self) -> (id: &Id) {
        &self.user_id
    }

    fn duplicate(&self) -> (copy: PasswordCredential) {
        self.clone()
    }
}

/// Password credentials kept in memory, one per user.
pub struct PasswordCredentialRepositoryMock {
    credentials: Table<PasswordCredential>,
}

impl PasswordCredentialRepositoryMock {
    pub fn new() -> (repository: PasswordCredentialRepositoryMock)
        ensures
            repository.credentials() == Map::<Seq<char>, PasswordCredentialView>::empty(),
    {
        PasswordCredentialRepositoryMock { credentials: Table::new() }
    }
}

impl Default for PasswordCredentialRepositoryMock {
    fn default() -> (repository: PasswordCredentialRepositoryMock)
        ensures
            repository.credentials() == Map::<Seq<char>, PasswordCredentialView>::empty(),
    {
        PasswordCredentialRepositoryMock::new()
    }
}

impl PasswordCredentialRepository for PasswordCredentialRepositoryMock {
    closed spec fn credentials(&self) -> Map<Seq<char>, PasswordCredentialView> {
        self.credentials.map()
    }

    fn save(&mut self, cred: &PasswordCredential) {
        self.credentials.put(cred.clone());
    }

    fn find_by_user_id(&self, id: &Id) -> (found: Option<PasswordCredential>) {
        self.credentials.get(id)
    }

    fn delete(&mut self, cred: &PasswordCredential) {
        self.credentials.remove(&cred.user_id);
    }
}

} // verus!
