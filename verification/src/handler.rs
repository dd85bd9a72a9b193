//! From a handler function to a unit that takes a request: the adapter
//! around the function, and the pipeline that extracts its arguments first.
use vstd::prelude::*;
use vstd::future::FutureAdditionalSpecFns;
use std::future::Future;
use std::marker::PhantomData;
use std::task::{Context, Poll};
use futures::future::{ready, LocalFutureObj};
use crate::request::{Extraction, FromRequest};
use crate::response::ToResponse;
use crate::task::{box_future, map_future};
use crate::wire::{HttpRequest, HttpResponse};

verus! {

/// What a unit makes of one request: the response, or a failure that
/// carries the request back.
pub type Outcome = Result<HttpResponse, (hyper::Error, HttpRequest)>;

/// What a unit says when asked whether it can take a request.
pub type Readiness = Poll<Result<(), (hyper::Error, HttpRequest)>>;

/// The two operations of a unit that processes requests and may fail with
/// the request in hand.
pub trait Service {
    /// The computation that one invocation returns.
    type Future: Future<Output = Outcome>;

    /// Whether the unit may say `readiness` when asked. Where an
    /// implementation does not say, it may say anything.
    open spec fn polls(&self, readiness: Readiness) -> bool {
        true
    }

    /// Whether the computation for `request` may resolve to `outcome`.
    /// Where an implementation does not say, every outcome may come.
    open spec fn yields(&self, request: HttpRequest, outcome: Outcome) -> bool {
        true
    }

    /// Whether one operation may leave the unit as `after`. Where an
    /// implementation does not say, it may leave it in any state.
    open spec fn turns_into(&self, after: &Self) -> bool {
        true
    }

    /// Asks whether the unit can take a request.
    fn poll_ready(&mut self, cx: &mut Context<'_>) -> (readiness: Readiness)
        ensures
            old(self).polls(readiness),
            old(self).turns_into(final(self)),
    ;

    /// Takes one request and returns the computation that processes it.
    fn call(&mut self, request: HttpRequest) -> (fut: Self::Future)
        ensures
            old(self).yields(request, fut@),
            old(self).turns_into(final(self)),
    ;
}

/// A handler function: takes the extracted arguments `T` and returns a
/// computation `R` of a value `U` that converts to a response.
pub trait Factory<T, R, U> where R: Future<Output = U>, U: ToResponse {
    /// Whether the function may be called on `args`. Where an
    /// implementation does not say, it may be called on everything.
    open spec fn accepts(&self, args: T) -> bool {
        true
    }

    /// Whether the computation for `args` may resolve to `value`. Where an
    /// implementation does not say, every value may come.
    open spec fn computes(&self, args: T, value: U) -> bool {
        true
    }

    /// Calls the function.
    fn call(&self, args: T) -> (fut: R)
        requires
            self.accepts(args),
        ensures
            self.computes(args, fut@),
    ;
}

/// A function of no arguments is a handler. The computation is the one the
/// function returns; of the value it resolves to nothing is said here.
impl<F, R, U> Factory<(), R, U> for F where F: Fn() -> R, R: Future<Output = U>, U: ToResponse {
    open spec fn accepts(&self, args: ()) -> bool {
        call_requires(*self, ())
    }

    fn call(&self, args: ()) -> (fut: R)
        ensures
            call_ensures(*self, (), fut),
    {
        self()
    }
}

/// A function of one argument is a handler, in the same way.
impl<F, A, R, U> Factory<(A,), R, U> for F where
    F: Fn(A) -> R,
    R: Future<Output = U>,
    U: ToResponse,
 {
    open spec fn accepts(&self, args: (A,)) -> bool {
        call_requires(*self, args)
    }

    fn call(&self, args: (A,)) -> (fut: R)
        ensures
            call_ensures(*self, args, fut),
    {
        self(args.0)
    }
}

/// The adapter: a handler function together with the types of its
/// arguments and of its result. It can be called on every argument.
#[verifier::reject_recursive_types(T)]
#[verifier::reject_recursive_types(R)]
#[verifier::reject_recursive_types(U)]
pub struct Handler<F, T, R, U> where F: Factory<T, R, U>, R: Future<Output = U>, U: ToResponse {
    hnd: F,
    _t: PhantomData<(T, R, U)>,
}

impl<F, T, R, U> Handler<F, T, R, U> where F: Factory<T, R, U>, R: Future<Output = U>, U: ToResponse {
    #[verifier::type_invariant]
    spec fn callable(self) -> bool {
        forall|args: T| #[trigger] self.hnd.accepts(args)
    }

    /// The function that the adapter wraps.
    pub closed spec fn factory(self) -> F {
        self.hnd
    }

    /// Wraps a function that can be called on every argument.
    pub fn new(hnd: F) -> (handler: Self)
        requires
            forall|args: T| #[trigger] hnd.accepts(args),
        ensures
            handler.factory() == hnd,
    {
        Handler { hnd, _t: PhantomData }
    }

    /// Calls the function on the extracted arguments.
    pub fn call(&self, args: T) -> (fut: R)
        ensures
            self.factory().computes(args, fut@),
    {
        proof {
            use_type_invariant(self);
        }
        self.hnd.call(args)
    }
}

/// Whether `outcome` answers a call of the function on `args`: it is the
/// response that some value the function may compute converts to.
pub open spec fn answers<F, T, R, U>(hnd: F, args: T, outcome: Outcome) -> bool where
    F: Factory<T, R, U>,
    R: Future<Output = U>,
    U: ToResponse,
 {
    exists|value: U| #[trigger]
        hnd.computes(args, value) && (outcome matches Ok(response) && value.converts_to(response))
}

/// Whether `outcome` follows an extraction: the answer of the function
/// where arguments were extracted, else the failure of the extraction with
/// the request it carries.
pub open spec fn proceeds<F, T, R, U>(hnd: F, extraction: Extraction<T>, outcome: Outcome) -> bool where
    F: Factory<T, R, U>,
    R: Future<Output = U>,
    U: ToResponse,
 {
    match extraction {
        Ok(args) => answers::<F, T, R, U>(hnd, args, outcome),
        Err(failure) => outcome == Err::<HttpResponse, (hyper::Error, HttpRequest)>(failure),
    }
}

/// The pipeline: extracts the arguments from a request, then calls the
/// handler on them. A failed extraction ends the invocation.
#[verifier::reject_recursive_types(T)]
#[verifier::reject_recursive_types(R)]
#[verifier::reject_recursive_types(U)]
pub struct Extract<F, T, R, U> where
    F: Factory<T, R, U>,
    T: FromRequest,
    R: Future<Output = U>,
    U: ToResponse,
 {
    pub handler: Handler<F, T, R, U>,
}

impl<F, T, R, U> Extract<F, T, R, U> where
    F: Factory<T, R, U>,
    T: FromRequest,
    R: Future<Output = U>,
    U: ToResponse,
 {
    /// Puts the extraction in front of a handler.
    pub fn new(handler: Handler<F, T, R, U>) -> (pipeline: Self)
        ensures
            pipeline.handler == handler,
    {
        Extract { handler }
    }
}

impl<F, T, R, U> Service for Extract<F, T, R, U> where
    F: Factory<T, R, U>,
    T: FromRequest,
    R: Future<Output = U> + 'static,
    U: ToResponse + 'static,
 {
    type Future = LocalFutureObj<'static, Outcome>;

    /// The pipeline is always ready.
    open spec fn polls(&self, readiness: Readiness) -> bool {
        readiness == Poll::Ready(Ok::<(), (hyper::Error, HttpRequest)>(()))
    }

    /// The pipeline resolves to what follows some extraction from the
    /// request.
    open spec fn yields(&self, request: HttpRequest, outcome: Outcome) -> bool {
        exists|extraction: Extraction<T>| #[trigger]
            T::extracts(request, extraction) && proceeds::<F, T, R, U>(
                self.handler.factory(),
                extraction,
                outcome,
            )
    }

    /// The pipeline has no state: no operation changes it.
    open spec fn turns_into(&self, after: &Self) -> bool {
        *after == *self
    }

    fn poll_ready(&mut self, cx: &mut Context<'_>) -> (readiness: Readiness) {
        Poll::Ready(Ok(()))
    }

    fn call(&mut self, request: HttpRequest) -> (fut: Self::Future) {
        match T::from_request(request) {
            Ok(args) => {
                let computation = self.handler.call(args);
                let respond = |value: U| -> (outcome: Outcome)
                    ensures
                        outcome matches Ok(response) && value.converts_to(response),
                    { Ok(value.to_response()) };
                map_future(computation, respond)
            },
            Err(failure) => box_future(ready(Err(failure))),
        }
    }
}

} // verus!
