use vstd::prelude::*;

use crate::method::Method;

verus! {

/// The ways building a router can fail.
#[derive(Debug)]
pub enum BuildError {
    /// A registered pattern string is not a valid regular expression; the
    /// variant names the method and the pattern at fault.
    InvalidPattern { method: Method, pattern: String },
    /// `finish` was called although no not-found handler had been set.
    NotFoundHandlerMissing,
}

} // verus!
