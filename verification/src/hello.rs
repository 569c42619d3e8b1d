//! The stateless greeting entry point: it builds a fixed greeting followed by
//! the caller-supplied name.

use vstd::prelude::*;

verus! {

/// The greeting entry point.
pub struct Contract;

impl Contract {
    /// Returns the fixed greeting followed by `to`, as two elements.
    pub fn hello(to: String) -> (r: Vec<String>)
        ensures
            r@.len() == 2,
            r@[0]@ == "Hi There"@,
            r@[1] == to,
    {
        let mut r: Vec<String> = Vec::new();
        r.push(String::from_str("Hi There"));
        r.push(to);
        r
    }
}

} // verus!
