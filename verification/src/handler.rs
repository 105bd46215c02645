use vstd::prelude::*;
use vstd::utf8::encode_utf8;

use crate::request::Request;
use crate::response::{Body, Response};

verus! {

/// The polymorphic unit the router invokes: anything that turns a bound
/// request into a response.  Implementations live with the application;
/// each states in `spec_handle` what holds of its responses, and dispatch
/// promises that the returned response satisfies the invoked handler's
/// predicate — the winning route's, or the not-found handler's.
pub trait InnerHandler: Send + Sync {
    /// Whether `resp` is a response this handler can produce for `req`.
    /// By default nothing is promised; an implementation may strengthen
    /// this to publish what its responses satisfy.
    open spec fn spec_handle(&self, req: Request, resp: Response) -> bool {
        true
    }

    /// Produces the response for a request.
    fn handle(&self, req: &Request) -> (r: Response)
        ensures
            self.spec_handle(*req, r),
    ;
}

/// An error with a total, infallible conversion to a response, so that
/// dispatch always produces exactly one response per request.
pub trait IntoResponse: Sized {
    /// Whether `r` is the response this error stands for.
    spec fn spec_response(&self, r: Response) -> bool;

    /// Converts this error into its response.
    fn into_response(self) -> (r: Response)
        ensures
            self.spec_response(r),
    ;
}

impl IntoResponse for String {
    /// A plain-text internal server error: status 500, the message as body.
    open spec fn spec_response(&self, r: Response) -> bool {
        &&& r.status == Some(500u16)
        &&& r.headers.deep_view() == Seq::<(Seq<char>, Seq<char>)>::empty()
        &&& r.body matches Some(b) && b.bytes_view() == encode_utf8(self@)
    }

    fn into_response(self) -> (r: Response) {
        let mut r = Response::new();
        r.set_status(500);
        r.body = Some(Body::Text(self));
        r
    }
}

/// The handler adapter: lets a handler be written as an ordinary fallible
/// function.  An `Ok` response is passed through unchanged; an `Err` is
/// replaced by exactly the response its error converts to.
pub fn handle_result<E: IntoResponse>(outcome: Result<Response, E>) -> (r: Response)
    ensures
        match outcome {
            Ok(resp) => r == resp,
            Err(e) => e.spec_response(r),
        },
{
    match outcome {
        Ok(resp) => resp,
        Err(e) => e.into_response(),
    }
}

} // verus!
