//! Sessions: one active authentication grant each.

use vstd::prelude::*;
use crate::data_type::id::Id;

verus! {

/// The mathematical value of a [`Session`].
pub struct SessionView {
    pub id: Seq<char>,
    pub user_id: Seq<char>,
    pub token: Seq<char>,
}

/// A record that binds a bearer token to a user's identifier.
#[derive(Debug)]
pub struct Session {
    pub id: Id,
    pub user_id: Id,
    pub token: String,
}

impl View for Session {
    type V = SessionView;

    open spec fn view(&self) -> SessionView {
        SessionView { id: self.id@, user_id: self.user_id@, token: self.token@ }
    }
}

impl Session {
    pub fn new(id: Id, user_id: Id, token: String) -> (session: Session)
        ensures
            session@ == (SessionView { id: id@, user_id: user_id@, token: token@ }),
    {
        Session { id, user_id, token }
    }
}

impl Clone for Session {
    fn clone(&self) -> (session: Session)
        ensures
            session@ == self@,
    {
        Session {
            id: self.id.clone(),
            user_id: self.user_id.clone(),
            token: self.token.clone(),
        }
    }
}

} // verus!
