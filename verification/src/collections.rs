//! Exercises on strings and hash maps.

use std::collections::HashMap;
use vstd::prelude::*;
use vstd::string::StrSliceExecFns;
use vstd::string::StringExecFns;

verus! {

/// Rust strings cannot be indexed by integer position the way arrays can:
/// a character is reached by walking the string instead.
pub fn indexing_into_strings() {
    let s1 = String::from_str("Hello");
    proof {
        reveal_strlit("Hello");
    }
    let h = s1.as_str().get_char(0);
    assert(h == 'H');
}

/// Inserting owned strings into a hash map moves them: after the call the
/// map owns both the key and the value.
pub fn hash_map_and_ownership() {
    let field_name = String::from_str("Favorite color");
    let field_value = String::from_str("Blue");

    let mut map: HashMap<String, String> = HashMap::new();
    map.insert(field_name, field_value);
    // field_name and field_value have been moved into the map and can no
    // longer be used here.
}

} // verus!
