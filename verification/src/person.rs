//! A person with a first and a last name, reachable through borrowing and
//! mutably borrowing accessors.

use vstd::prelude::*;

verus! {

/// A person, named by a first and a last name.
#[derive(Debug)]
pub struct Person {
    first_name: String,
    last_name: String,
}

impl Person {
    /// The first name, as a sequence of characters.
    pub closed spec fn spec_first_name(self) -> Seq<char> {
        self.first_name@
    }

    /// The last name, as a sequence of characters.
    pub closed spec fn spec_last_name(self) -> Seq<char> {
        self.last_name@
    }

    /// Borrow the first name.
    pub fn first_name(&self) -> (r: &str)
        ensures
            r@ == self.spec_first_name(),
    {
        self.first_name.as_str()
    }

    /// Borrow the last name.
    pub fn last_name(&self) -> (r: &str)
        ensures
            r@ == self.spec_last_name(),
    {
        self.last_name.as_str()
    }

    /// Mutably borrow the first name; whatever the caller writes through the
    /// borrow becomes the new first name, and the last name is untouched.
    pub fn first_name_mut(&mut self) -> (r: &mut String)
        ensures
            (*r)@ == old(self).spec_first_name(),
            final(self).spec_first_name() == (*final(r))@,
            final(self).spec_last_name() == old(self).spec_last_name(),
    {
        &mut self.first_name
    }

    /// Mutably borrow the last name; whatever the caller writes through the
    /// borrow becomes the new last name, and the first name is untouched.
    pub fn last_name_mut(&mut self) -> (r: &mut String)
        ensures
            (*r)@ == old(self).spec_last_name(),
            final(self).spec_last_name() == (*final(r))@,
            final(self).spec_first_name() == old(self).spec_first_name(),
    {
        &mut self.last_name
    }
}

impl Default for Person {
    /// A person with both names still empty.
    fn default() -> (p: Person)
        ensures
            p.spec_first_name() == Seq::<char>::empty(),
            p.spec_last_name() == Seq::<char>::empty(),
    {
        Person { first_name: String::new(), last_name: String::new() }
    }
}

} // verus!
