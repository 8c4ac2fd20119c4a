//! Session tokens.

use vstd::prelude::*;
use crate::data_type::id::Id;

verus! {

/// A source of session tokens.
pub trait GeneratorTrait {
    /// Whether `token` is one that this generator may hand out for the
    /// user `user_id`. Unless an implementation says more, any token is.
    open spec fn generates(&self, user_id: Seq<char>, token: Seq<char>) -> bool {
        true
    }

    /// A token for a session of the user `user_id`.
    fn generate(&self, user_id: &Id) -> (token: String)
        ensures
            self.generates(user_id@, token@),
    ;
}

} // verus!
