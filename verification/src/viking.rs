//! A viking identified by a name and a home country, usable as a hash-map
//! key.

use vstd::prelude::*;

verus! {

/// A viking, named and placed.
#[derive(Hash, Eq, PartialEq, Debug)]
pub struct Viking {
    pub name: String,
    pub country: String,
}

impl Viking {
    /// Build a viking by taking owned copies of the two borrowed names.
    pub fn new(name: &str, country: &str) -> (v: Viking)
        ensures
            v.name@ == name@,
            v.country@ == country@,
    {
        Viking { name: name.to_owned(), country: country.to_owned() }
    }
}

} // verus!
