//! Identifiers of users and sessions.

use vstd::prelude::*;
use vstd::std_specs::cmp::PartialEqSpecImpl;

verus! {

/// An opaque identifier, known to the library by its printed form.
///
/// Two identifiers name the same entity exactly when their printed forms
/// are equal.
#[derive(Debug, Hash)]
pub struct Id {
    value: String,
}

impl View for Id {
    type V = Seq<char>;

    closed spec fn view(&self) -> Seq<char> {
        self.value@
    }
}

impl Id {
    /// Makes the identifier whose printed form is `value`.
    pub fn new(value: String) -> (id: Id)
        ensures
            id@ == value@,
    {
        Id { value }
    }

    /// The printed form of the identifier.
    pub fn to_string(&self) -> (text: String)
        ensures
            text@ == self@,
    {
        self.value.clone()
    }
}

impl Clone for Id {
    fn clone(&self) -> (id: Id)
        ensures
            id@ == self@,
    {
        Id { value: self.value.clone() }
    }
}

impl PartialEq for Id {
    fn eq(&self, other: &Id) -> (same: bool) {
        self.value == other.value
    }
}

impl PartialEqSpecImpl for Id {
    open spec fn obeys_eq_spec() -> bool {
        true
    }

    open spec fn eq_spec(&self, other: &Id) -> bool {
        self@ == other@
    }
}

impl Eq for Id {}

/// A source of fresh identifiers.
pub trait IdFactory {
    /// Whether `id` is the printed form of an identifier that this factory
    /// may hand out. Unless an implementation says more, any is.
    open spec fn creates(&self, id: Seq<char>) -> bool {
        true
    }

    /// Hands out an identifier. Whether it is unused so far is the concern
    /// of the implementation.
    fn create(&self) -> (id: Id)
        ensures
            self.creates(id@),
    ;
}

} // verus!
