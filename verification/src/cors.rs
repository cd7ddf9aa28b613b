//! The permissive cross-origin header, attached to every response when
//! the configuration asks for it.

use vstd::prelude::*;
use vstd::string::StringExecFns;

verus! {

/// Adds the permissive cross-origin header to responses.
pub struct CORS;

impl CORS {
    /// The header to attach: its name and its value.
    pub fn header(&self) -> (header: (String, String))
        ensures
            header.0@ == "Access-Control-Allow-Origin"@,
            header.1@ == "*"@,
    {
        (String::from_str("Access-Control-Allow-Origin"), String::from_str("*"))
    }
}

} // verus!
