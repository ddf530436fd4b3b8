//! The restaurant exercise's menu: the appetizers on offer.

use vstd::prelude::*;

verus! {

/// An appetizer a guest may order.
#[derive(Debug)]
pub enum Appetizer {
    Soup,
    Salad,
}

} // verus!
