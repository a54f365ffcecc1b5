//! The name reported for the JavaScript global scope the code runs in.

use vstd::prelude::*;

verus! {

/// The name of the global scope, given the name of its constructor if one
/// could be read: that name, or `"unknown"`.
pub fn scope_name_or_unknown(constructor_name: Option<String>) -> (name: String)
    ensures
        match constructor_name {
            Some(n) => name@ == n@,
            None => name@ == "unknown"@,
        },
{
    match constructor_name {
        Some(n) => n,
        None => "unknown".to_owned(),
    }
}

} // verus!
