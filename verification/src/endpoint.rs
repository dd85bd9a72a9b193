//! Endpoints: a method filter and a request processor behind the one fixed
//! transport contract, built step by step from a handler function.
use vstd::prelude::*;
use vstd::future::FutureAdditionalSpecFns;
use std::future::Future;
use std::task::{Context, Poll};
use futures::future::{ready, LocalFutureObj, Ready};
use http::Method;
use crate::handler::{Extract, Factory, Handler, Outcome, Readiness, Service};
use crate::laws::law_unassigned_answers_not_found;
use crate::request::FromRequest;
use crate::response::ToResponse;
use crate::task::map_future;
use crate::wire::{
    blank_response, is_blank, method_text, verb_delete, verb_get, verb_head, verb_patch,
    verb_post, verb_put, HttpRequest, HttpResponse, NOT_FOUND, OK,
};

verus! {

/// What the transport is told of one request: the response, or a transport
/// error.
pub type Reply = Result<HttpResponse, hyper::Error>;

/// What the transport is told when it asks for readiness.
pub type TransportReadiness = Poll<Result<(), hyper::Error>>;

/// The fixed transport contract: the two operations through which a router
/// drives every endpoint, whatever the signature of its handler.
pub trait Transport {
    /// Whether the processor may say `readiness` when asked. Where an
    /// implementation does not say, it may say anything.
    open spec fn polls(&self, readiness: TransportReadiness) -> bool {
        true
    }

    /// Whether the computation for `request` may resolve to `reply`. Where
    /// an implementation does not say, every reply may come.
    open spec fn yields(&self, request: HttpRequest, reply: Reply) -> bool {
        true
    }

    /// Whether the processor stays as it is: no operation changes what it
    /// polls and what it yields. Where an implementation does not say, it
    /// may change.
    open spec fn steady(&self) -> bool {
        false
    }

    /// Asks whether the processor can take a request. A steady processor
    /// is left steady and answers afterwards as before.
    fn poll_ready(&mut self, cx: &mut Context<'_>) -> (readiness: TransportReadiness)
        ensures
            old(self).polls(readiness),
            old(self).steady() ==> final(self).steady(),
            old(self).steady() ==> forall|request: HttpRequest, reply: Reply|
                final(self).yields(request, reply) <==> old(self).yields(request, reply),
            old(self).steady() ==> forall|readiness: TransportReadiness|
                final(self).polls(readiness) <==> old(self).polls(readiness),
    ;

    /// Takes one request and returns the computation that answers it. The
    /// computation never resolves to an error: a request is always answered.
    /// A steady processor is left steady and answers afterwards as before.
    fn call(&mut self, request: HttpRequest) -> (fut: LocalFutureObj<'static, Reply>)
        ensures
            old(self).yields(request, fut@),
            fut@ is Ok,
            old(self).steady() ==> final(self).steady(),
            old(self).steady() ==> forall|request: HttpRequest, reply: Reply|
                final(self).yields(request, reply) <==> old(self).yields(request, reply),
            old(self).steady() ==> forall|readiness: TransportReadiness|
                final(self).polls(readiness) <==> old(self).polls(readiness),
    ;
}

/// Whether two processors, of whatever types, answer alike: each polls what
/// the other polls and yields what the other yields.
pub open spec fn answers_as<A: Transport + ?Sized, B: Transport + ?Sized>(a: &A, b: &B) -> bool {
    &&& forall|request: HttpRequest, reply: Reply|
        a.yields(request, reply) <==> b.yields(request, reply)
    &&& forall|readiness: TransportReadiness| a.polls(readiness) <==> b.polls(readiness)
}

/// An owned processor of unknown type behind one heap indirection. It
/// answers as the processor it was made from.
pub struct BoxedEndpointService {
    inner: Box<dyn Transport>,
}

/// Trusted: `Box::new` followed by the coercion of the box to a trait
/// object gives a value whose methods are those of the value that was
/// boxed. So the boxed processor polls and yields what the given one does,
/// and is steady where the given one is.
#[verifier::external_body]
fn box_processor<S: Transport + 'static>(processor: S) -> (boxed: BoxedEndpointService)
    ensures
        answers_as(&boxed, &processor),
        boxed.steady() <==> processor.steady(),
{
    BoxedEndpointService { inner: Box::new(processor) }
}

impl Transport for BoxedEndpointService {
    /// The boxed processor says what the processor in the box says.
    closed spec fn polls(&self, readiness: TransportReadiness) -> bool {
        self.inner.polls(readiness)
    }

    /// The boxed processor resolves to what the processor in the box
    /// resolves to.
    closed spec fn yields(&self, request: HttpRequest, reply: Reply) -> bool {
        self.inner.yields(request, reply)
    }

    /// The boxed processor is steady where the processor in the box is.
    closed spec fn steady(&self) -> bool {
        self.inner.steady()
    }

    fn poll_ready(&mut self, cx: &mut Context<'_>) -> (readiness: TransportReadiness) {
        self.inner.poll_ready(cx)
    }

    fn call(&mut self, request: HttpRequest) -> (fut: LocalFutureObj<'static, Reply>) {
        self.inner.call(request)
    }
}

/// What the transport is told for a readiness of the inner unit: the same,
/// with the request dropped from a failure.
pub open spec fn flattened(readiness: Readiness) -> TransportReadiness {
    match readiness {
        Poll::Pending => Poll::Pending,
        Poll::Ready(Ok(())) => Poll::Ready(Ok(())),
        Poll::Ready(Err(failure)) => Poll::Ready(Err(failure.0)),
    }
}

/// Turns the readiness of an inner unit into that of the transport
/// contract: a failure keeps its error and loses its request.
pub fn flatten_readiness(readiness: Readiness) -> (flat: TransportReadiness)
    ensures
        flat == flattened(readiness),
{
    match readiness {
        Poll::Pending => Poll::Pending,
        Poll::Ready(Ok(())) => Poll::Ready(Ok(())),
        Poll::Ready(Err((error, _))) => Poll::Ready(Err(error)),
    }
}

/// Whether `reply` settles `outcome`: a response is passed on as it is, and
/// a failure is answered with a blank successful response.
pub open spec fn settled(outcome: Outcome, reply: Reply) -> bool {
    match outcome {
        Ok(response) => reply == Ok::<HttpResponse, hyper::Error>(response),
        Err(_) => reply matches Ok(response) && is_blank(response, OK),
    }
}

/// The response that stands in for a failed extraction or handler.
pub fn fallback_response() -> (response: HttpResponse)
    ensures
        is_blank(response, OK),
{
    blank_response(OK)
}

/// Settles the outcome of an inner unit: its response is passed on
/// unchanged; its failure is dropped, request and all, and answered with
/// the fallback response.
pub fn settle(outcome: Outcome) -> (reply: Reply)
    ensures
        settled(outcome, reply),
        reply is Ok,
{
    match outcome {
        Ok(response) => Ok(response),
        Err(_) => Ok(fallback_response()),
    }
}

/// The adapter between an inner unit and the transport contract.
pub struct EndpointService<S: Service> {
    pub service: S,
}

impl<S: Service> EndpointService<S> where S::Future: 'static {
    /// Wraps an inner unit.
    pub fn new(service: S) -> (adapter: Self)
        ensures
            adapter.service == service,
    {
        EndpointService { service }
    }
}

impl<S: Service> Transport for EndpointService<S> where S::Future: 'static {
    /// The adapter says what the inner unit says, flattened.
    open spec fn polls(&self, readiness: TransportReadiness) -> bool {
        exists|inner: Readiness| #[trigger]
            self.service.polls(inner) && readiness == flattened(inner)
    }

    /// The adapter resolves to what settles an outcome of the inner unit.
    open spec fn yields(&self, request: HttpRequest, reply: Reply) -> bool {
        exists|outcome: Outcome| #[trigger]
            self.service.yields(request, outcome) && settled(outcome, reply)
    }

    /// The adapter is steady where no operation changes the inner unit.
    open spec fn steady(&self) -> bool {
        forall|after: S| #[trigger] self.service.turns_into(&after) ==> after == self.service
    }

    fn poll_ready(&mut self, cx: &mut Context<'_>) -> (readiness: TransportReadiness)
        ensures
            old(self).service.turns_into(&final(self).service),
    {
        flatten_readiness(self.service.poll_ready(cx))
    }

    fn call(&mut self, request: HttpRequest) -> (fut: LocalFutureObj<'static, Reply>)
        ensures
            old(self).service.turns_into(&final(self).service),
    {
        let inner = self.service.call(request);
        map_future(inner, settle)
    }
}

/// The handler of an endpoint to which none was assigned: it takes no
/// arguments and answers "not found" with an empty body.
pub struct NotFound;

impl Factory<(), Ready<HttpResponse>, HttpResponse> for NotFound {
    open spec fn computes(&self, args: (), value: HttpResponse) -> bool {
        is_blank(value, NOT_FOUND)
    }

    fn call(&self, args: ()) -> (fut: Ready<HttpResponse>) {
        ready(blank_response(NOT_FOUND))
    }
}

/// The processor that `to` builds around a handler function.
pub type HandlerService<F, T, R, U> = EndpointService<Extract<F, T, R, U>>;

/// The processor of an endpoint to which no handler was assigned.
pub type NotFoundService = HandlerService<NotFound, (), Ready<HttpResponse>, HttpResponse>;

/// A route target: an optional method filter, where `None` matches every
/// method, and the processor that answers the requests.
pub struct Endpoint<S = BoxedEndpointService> {
    pub method: Option<Method>,
    pub handler: S,
}

impl Endpoint<NotFoundService> {
    /// Whether the endpoint answers every request with a blank "not found"
    /// response, and with nothing else.
    pub open spec fn answers_not_found(self) -> bool {
        forall|request: HttpRequest, reply: Reply|
            self.handler.yields(request, reply) <==> (reply matches Ok(response) && is_blank(
                response,
                NOT_FOUND,
            ))
    }

    /// An endpoint that matches every method and answers every request
    /// "not found" with an empty body.
    pub fn new() -> (endpoint: Self)
        ensures
            endpoint.method is None,
            endpoint.answers_not_found(),
    {
        let endpoint = Endpoint {
            method: None,
            handler: EndpointService::new(Extract::new(Handler::new(NotFound))),
        };
        proof {
            law_unassigned_answers_not_found(endpoint);
        }
        endpoint
    }

    /// An endpoint for the requests of one method, with no handler yet.
    pub fn method(method: Method) -> (endpoint: Self)
        ensures
            endpoint.method == Some(method),
            endpoint.answers_not_found(),
    {
        Endpoint::new().set_method(method)
    }

    /// An endpoint for `GET` requests, with no handler yet.
    pub fn get() -> (endpoint: Self)
        ensures
            endpoint.method matches Some(method) && method_text(method) == "GET"@,
            endpoint.answers_not_found(),
    {
        Endpoint::new().set_method(verb_get())
    }

    /// An endpoint for `POST` requests, with no handler yet.
    pub fn post() -> (endpoint: Self)
        ensures
            endpoint.method matches Some(method) && method_text(method) == "POST"@,
            endpoint.answers_not_found(),
    {
        Endpoint::new().set_method(verb_post())
    }

    /// An endpoint for `PUT` requests, with no handler yet.
    pub fn put() -> (endpoint: Self)
        ensures
            endpoint.method matches Some(method) && method_text(method) == "PUT"@,
            endpoint.answers_not_found(),
    {
        Endpoint::new().set_method(verb_put())
    }

    /// An endpoint for `PATCH` requests, with no handler yet.
    pub fn patch() -> (endpoint: Self)
        ensures
            endpoint.method matches Some(method) && method_text(method) == "PATCH"@,
            endpoint.answers_not_found(),
    {
        Endpoint::new().set_method(verb_patch())
    }

    /// An endpoint for `DELETE` requests, with no handler yet.
    pub fn delete() -> (endpoint: Self)
        ensures
            endpoint.method matches Some(method) && method_text(method) == "DELETE"@,
            endpoint.answers_not_found(),
    {
        Endpoint::new().set_method(verb_delete())
    }

    /// An endpoint for `HEAD` requests, with no handler yet.
    pub fn head() -> (endpoint: Self)
        ensures
            endpoint.method matches Some(method) && method_text(method) == "HEAD"@,
            endpoint.answers_not_found(),
    {
        Endpoint::new().set_method(verb_head())
    }
}

impl<S> Endpoint<S> {
    /// The endpoint with its method filter replaced.
    pub open spec fn with_method(self, method: Method) -> Self {
        Endpoint { method: Some(method), handler: self.handler }
    }

    /// Replaces the handler: the processor becomes the adapter around the
    /// pipeline around the given function, which must be callable on every
    /// argument. The method filter stays.
    pub fn to<F, T, R, U>(self, handler: F) -> (endpoint: Endpoint<HandlerService<F, T, R, U>>) where
        F: Factory<T, R, U>,
        T: FromRequest + 'static,
        R: Future<Output = U> + 'static,
        U: ToResponse + 'static,

        requires
            forall|args: T| #[trigger] handler.accepts(args),
        ensures
            endpoint.method == self.method,
            endpoint.handler.service.handler.factory() == handler,
    {
        Endpoint {
            method: self.method,
            handler: EndpointService::new(Extract::new(Handler::new(handler))),
        }
    }

    /// Replaces the method filter, whatever it was. The handler stays.
    pub fn set_method(self, method: Method) -> (endpoint: Self)
        ensures
            endpoint == self.with_method(method),
    {
        let mut endpoint = self;
        endpoint.method = Some(method);
        endpoint
    }
}

impl<S: Transport + 'static> Endpoint<S> {
    /// Forgets the type of the processor, so that endpoints of different
    /// handlers fit one collection. The method filter stays, and the
    /// endpoint answers as before.
    pub fn erase(self) -> (endpoint: Endpoint<BoxedEndpointService>)
        ensures
            endpoint.method == self.method,
            answers_as(&endpoint.handler, &self.handler),
            endpoint.handler.steady() <==> self.handler.steady(),
    {
        Endpoint { method: self.method, handler: box_processor(self.handler) }
    }
}

} // verus!
