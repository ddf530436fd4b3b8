//! Small exercises on ownership, borrowing and moves, each with the exact
//! contract its behaviour admits.

use vstd::prelude::*;
use vstd::string::StringExecFns;

verus! {

/// Mutate a borrowed string in place by appending a greeting to it.
pub fn change(s: &mut String)
    ensures
        final(s)@ == old(s)@ + ", world"@,
{
    s.append(", world");
}

/// Hand back both the borrow itself and an owned copy of the same string.
pub fn some_func(s: &String) -> (r: (&String, String))
    ensures
        r.0 == s,
        r.1@ == s@,
{
    (s, s.clone())
}

/// The length of the borrowed string: the number of bytes in its UTF-8
/// encoding, which exceeds the number of characters wherever one lies above
/// U+007F.
pub fn calculate_length(some_string: &String) -> (l: usize)
    ensures
        l == vstd::utf8::encode_utf8(some_string@).len() as usize,
{
    some_string.as_str().len()
}

/// Create a string inside the function and move it out to the caller.
pub fn gives_ownership() -> (s: String)
    ensures
        s@ == "hi mom"@,
{
    "hi mom".to_owned()
}

/// Take ownership of a string and give exactly the same value back.
pub fn take_and_gives_back(some_string: String) -> (r: String)
    ensures
        r == some_string,
{
    some_string
}

} // verus!
