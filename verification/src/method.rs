use vstd::prelude::*;

verus! {

/// The HTTP methods the router keeps a route group for.
#[derive(Clone, Copy, PartialEq, Eq, Structural, Debug)]
pub enum Method {
    Get,
    Post,
    Put,
    Patch,
    Delete,
    Head,
}

} // verus!
