//! The response capability: how a handler's value becomes a response.
use vstd::prelude::*;
use crate::wire::HttpResponse;

verus! {

/// A value that a handler may return.
pub trait ToResponse: Sized {
    /// Whether `response` is what this value converts to. Where an
    /// implementation does not say, every response may be.
    open spec fn converts_to(self, response: HttpResponse) -> bool {
        true
    }

    /// Converts the value into the response that is sent.
    fn to_response(self) -> (response: HttpResponse)
        ensures
            self.converts_to(response),
    ;
}

/// A response converts to itself.
impl ToResponse for HttpResponse {
    open spec fn converts_to(self, response: HttpResponse) -> bool {
        response == self
    }

    fn to_response(self) -> (response: HttpResponse) {
        self
    }
}

} // verus!
