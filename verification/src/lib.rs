//! A regular-expression request router.
//!
//! Routes are registered per HTTP method as `(pattern, priority, handler)`
//! triples through [`RouterBuilder`]; [`RouterBuilder::finish`] compiles them
//! into an immutable [`Router`].  Dispatch matches the request path against
//! the method's combined pattern set, picks the winner by lowest priority
//! (ties broken by lowest registration index), binds the winning pattern's
//! capture groups onto the request, and invokes that entry's handler — or the
//! mandatory not-found handler when nothing matches.

pub mod err;
pub mod method;
pub mod pattern;
pub mod request;
pub mod response;
pub mod handler;
pub mod router;

pub use err::BuildError;
pub use handler::{handle_result, InnerHandler, IntoResponse};
pub use method::Method;
pub use request::Request;
pub use response::{Body, Response, WireResponse, WriteBody};
pub use router::{Router, RouterBuilder};
