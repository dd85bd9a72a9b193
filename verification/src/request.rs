//! The extraction capability: how the arguments of a handler are derived
//! from a request.
use vstd::prelude::*;
use crate::wire::HttpRequest;

verus! {

/// What an extraction gives: the arguments, or the failure together with the
/// request it was tried on.
pub type Extraction<T> = Result<T, (hyper::Error, HttpRequest)>;

/// Arguments that can be derived from a request.
pub trait FromRequest: Sized {
    /// Whether `outcome` is a result of extracting from `request`. Where an
    /// implementation does not say, every outcome may be.
    open spec fn extracts(request: HttpRequest, outcome: Extraction<Self>) -> bool {
        true
    }

    /// Derives the arguments from the request, or fails and hands the
    /// request back with the error.
    fn from_request(request: HttpRequest) -> (outcome: Extraction<Self>)
        ensures
            Self::extracts(request, outcome),
    ;
}

/// No arguments: extraction succeeds on every request.
impl FromRequest for () {
    open spec fn extracts(request: HttpRequest, outcome: Extraction<()>) -> bool {
        outcome == Ok::<(), (hyper::Error, HttpRequest)>(())
    }

    fn from_request(request: HttpRequest) -> (outcome: Extraction<()>) {
        Ok(())
    }
}

/// One argument: extraction is that of the argument.
impl<A: FromRequest> FromRequest for (A,) {
    open spec fn extracts(request: HttpRequest, outcome: Extraction<(A,)>) -> bool {
        match outcome {
            Ok(args) => A::extracts(request, Ok(args.0)),
            Err(failure) => A::extracts(request, Err(failure)),
        }
    }

    fn from_request(request: HttpRequest) -> (outcome: Extraction<(A,)>) {
        match A::from_request(request) {
            Ok(a) => Ok((a,)),
            Err(failure) => Err(failure),
        }
    }
}

/// The request itself: a handler may take it whole.
impl FromRequest for HttpRequest {
    open spec fn extracts(request: HttpRequest, outcome: Extraction<HttpRequest>) -> bool {
        outcome == Ok::<HttpRequest, (hyper::Error, HttpRequest)>(request)
    }

    fn from_request(request: HttpRequest) -> (outcome: Extraction<HttpRequest>) {
        Ok(request)
    }
}

} // verus!
