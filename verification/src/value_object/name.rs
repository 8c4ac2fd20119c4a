//! A person's name.

use vstd::prelude::*;

verus! {

/// The mathematical value of a [`Name`].
pub struct NameView {
    pub first: Seq<char>,
    pub last: Seq<char>,
}

/// First and last name of a registered user.
#[derive(Debug)]
pub struct Name {
    pub first: String,
    pub last: String,
}

impl View for Name {
    type V = NameView;

    open spec fn view(&self) -> NameView {
        NameView { first: self.first@, last: self.last@ }
    }
}

impl Name {
    pub fn new(first: String, last: String) -> (name: Name)
        ensures
            name@ == (NameView { first: first@, last: last@ }),
    {
        Name { first, last }
    }
}

impl Clone for Name {
    fn clone(&self) -> (name: Name)
        ensures
            name@ == self@,
    {
        Name { first: self.first.clone(), last: self.last.clone() }
    }
}

} // verus!
