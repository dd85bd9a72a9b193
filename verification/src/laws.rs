//! What holds of every endpoint and of every adapter, proved from the
//! definitions of the other modules.
use vstd::prelude::*;
use std::future::Future;
use std::task::Poll;
use futures::future::Ready;
use http::Method;
use crate::endpoint::{
    answers_as, flattened, settled, BoxedEndpointService, Endpoint, EndpointService,
    HandlerService, NotFound, NotFoundService, Reply, Transport, TransportReadiness,
};
use crate::handler::{answers, proceeds, Factory, Outcome, Readiness, Service};
use crate::request::{Extraction, FromRequest};
use crate::response::ToResponse;
use crate::wire::{
    is_blank, response_body_size, response_header_count, response_status, HttpRequest,
    HttpResponse, NOT_FOUND, OK,
};

verus! {

/// An endpoint to which no handler was assigned answers every request, of
/// whatever content, with the status "not found" and an empty body, and
/// with nothing else, whatever its method filter is.
pub proof fn law_unassigned_answers_not_found(endpoint: Endpoint<NotFoundService>)
    ensures
        endpoint.answers_not_found(),
{
    let hnd = endpoint.handler.service.handler.factory();
    assert forall|request: HttpRequest, reply: Reply|
        endpoint.handler.yields(request, reply) <==> (reply matches Ok(response) && is_blank(
            response,
            NOT_FOUND,
        )) by {
        if endpoint.handler.yields(request, reply) {
            let outcome = choose|outcome: Outcome| #[trigger]
                endpoint.handler.service.yields(request, outcome) && settled(outcome, reply);
            let extraction = choose|extraction: Extraction<()>| #[trigger]
                <() as FromRequest>::extracts(request, extraction) && proceeds::<
                    NotFound,
                    (),
                    Ready<HttpResponse>,
                    HttpResponse,
                >(hnd, extraction, outcome);
            assert(answers::<NotFound, (), Ready<HttpResponse>, HttpResponse>(hnd, (), outcome));
        }
        if reply matches Ok(response) && is_blank(response, NOT_FOUND) {
            let response = reply->Ok_0;
            let outcome: Outcome = Ok(response);
            let extraction: Extraction<()> = Ok(());
            assert(hnd.computes((), response) && response.converts_to(response));
            assert(answers::<NotFound, (), Ready<HttpResponse>, HttpResponse>(hnd, (), outcome));
            assert(<() as FromRequest>::extracts(request, extraction));
            assert(proceeds::<NotFound, (), Ready<HttpResponse>, HttpResponse>(
                hnd,
                extraction,
                outcome,
            ));
            assert(endpoint.handler.service.yields(request, outcome) && settled(outcome, reply));
        }
    }
}

/// Setting the method filter overwrites whatever was set before: of two
/// settings in a row the last one stands, and the handler is untouched.
pub proof fn law_last_method_stands<S>(endpoint: Endpoint<S>, first: Method, last: Method)
    ensures
        endpoint.with_method(first).with_method(last) == endpoint.with_method(last),
        endpoint.with_method(last).method == Some(last),
        endpoint.with_method(last).handler == endpoint.handler,
{
}

/// Where the inner unit can only succeed on a request, the adapter resolves
/// to a response of the inner unit, passed on as it is.
pub proof fn law_success_is_forwarded<S: Service>(
    adapter: EndpointService<S>,
    request: HttpRequest,
    reply: Reply,
) where S::Future: 'static
    requires
        adapter.yields(request, reply),
        forall|outcome: Outcome| #[trigger] adapter.service.yields(request, outcome) ==> outcome is Ok,
    ensures
        exists|response: HttpResponse| #[trigger]
            adapter.service.yields(request, Ok(response)) && reply == Ok::<
                HttpResponse,
                hyper::Error,
            >(response),
{
    let outcome = choose|outcome: Outcome| #[trigger]
        adapter.service.yields(request, outcome) && settled(outcome, reply);
    let response = outcome->Ok_0;
    assert(adapter.service.yields(request, Ok(response)));
}

/// Where the extraction of the arguments can only succeed on a request, the
/// processor built around a handler function resolves to the response that
/// a value of the function converts to: nothing is changed in between.
pub proof fn law_handler_response_is_forwarded<F, T, R, U>(
    processor: HandlerService<F, T, R, U>,
    request: HttpRequest,
    reply: Reply,
) where
    F: Factory<T, R, U>,
    T: FromRequest,
    R: Future<Output = U> + 'static,
    U: ToResponse + 'static,

    requires
        processor.yields(request, reply),
        forall|extraction: Extraction<T>| #[trigger]
            T::extracts(request, extraction) ==> extraction is Ok,
    ensures
        exists|args: T, value: U, response: HttpResponse|
            {
                &&& T::extracts(request, Ok(args))
                &&& #[trigger] processor.service.handler.factory().computes(args, value)
                &&& #[trigger] value.converts_to(response)
                &&& reply == Ok::<HttpResponse, hyper::Error>(response)
            },
{
    let hnd = processor.service.handler.factory();
    let outcome = choose|outcome: Outcome| #[trigger]
        processor.service.yields(request, outcome) && settled(outcome, reply);
    let extraction = choose|extraction: Extraction<T>| #[trigger]
        T::extracts(request, extraction) && proceeds::<F, T, R, U>(hnd, extraction, outcome);
    let args = extraction->Ok_0;
    assert(answers::<F, T, R, U>(hnd, args, outcome));
    let value = choose|value: U| #[trigger]
        hnd.computes(args, value) && (outcome matches Ok(response) && value.converts_to(response));
    let response = outcome->Ok_0;
    assert(T::extracts(request, Ok(args)) && hnd.computes(args, value) && value.converts_to(
        response,
    ) && reply == Ok::<HttpResponse, hyper::Error>(response));
}

/// Where the inner unit can only fail on a request, the adapter still
/// succeeds: it resolves to a successful response with an empty body, and
/// neither the error nor the request of the failure comes out.
pub proof fn law_failure_is_answered<S: Service>(
    adapter: EndpointService<S>,
    request: HttpRequest,
    reply: Reply,
) where S::Future: 'static
    requires
        adapter.yields(request, reply),
        forall|outcome: Outcome| #[trigger]
            adapter.service.yields(request, outcome) ==> outcome is Err,
    ensures
        reply matches Ok(response) && is_blank(response, OK),
{
}

/// Whatever the inner unit does with a request, the adapter never resolves
/// to an error.
pub proof fn law_invocation_never_fails<S: Service>(
    adapter: EndpointService<S>,
    request: HttpRequest,
    reply: Reply,
) where S::Future: 'static
    requires
        adapter.yields(request, reply),
    ensures
        reply is Ok,
{
}

/// A readiness failure comes out with the same error and without the
/// request; success and "not yet" come out as they are.
pub proof fn law_readiness_is_flattened(error: hyper::Error, request: HttpRequest)
    ensures
        flattened(Poll::Ready(Err((error, request)))) == Poll::Ready(
            Err::<(), hyper::Error>(error),
        ),
        flattened(Poll::Ready(Ok(()))) == Poll::Ready(Ok::<(), hyper::Error>(())),
        flattened(Poll::Pending) == Poll::<Result<(), hyper::Error>>::Pending,
{
}

/// Where the inner unit can only fail its readiness check, the adapter
/// fails its own with an error of the inner unit, unchanged.
pub proof fn law_readiness_failure_propagates<S: Service>(
    adapter: EndpointService<S>,
    readiness: TransportReadiness,
) where S::Future: 'static
    requires
        adapter.polls(readiness),
        forall|inner: Readiness| #[trigger]
            adapter.service.polls(inner) ==> inner matches Poll::Ready(Err(_)),
    ensures
        exists|error: hyper::Error, request: HttpRequest| #[trigger]
            adapter.service.polls(Poll::Ready(Err((error, request)))) && readiness == Poll::Ready(
                Err::<(), hyper::Error>(error),
            ),
{
    let inner = choose|inner: Readiness| #[trigger]
        adapter.service.polls(inner) && readiness == flattened(inner);
    match inner {
        Poll::Ready(Err(failure)) => {
            assert(adapter.service.polls(Poll::Ready(Err((failure.0, failure.1)))));
        },
        _ => {},
    }
}

/// Two blank responses of one status are equal in all that is said of a
/// response: the status, the headers, of which there are none, and the
/// body, which is empty.
pub proof fn law_blank_responses_agree(first: HttpResponse, second: HttpResponse, status: u16)
    requires
        is_blank(first, status),
        is_blank(second, status),
    ensures
        response_status(first) == response_status(second),
        response_header_count(first) == 0 && response_header_count(second) == 0,
        response_body_size(first) == Some(0u64) && response_body_size(second) == Some(0u64),
{
}

/// The answer of an endpoint to which no handler was assigned does not
/// depend on the request: the replies to any two requests are blank "not
/// found" responses, equal in status, headers and body.
pub proof fn law_unassigned_ignores_the_request(
    endpoint: Endpoint<NotFoundService>,
    first: HttpRequest,
    second: HttpRequest,
    first_reply: Reply,
    second_reply: Reply,
)
    requires
        endpoint.handler.yields(first, first_reply),
        endpoint.handler.yields(second, second_reply),
    ensures
        first_reply matches Ok(a) && second_reply matches Ok(b) && is_blank(a, NOT_FOUND)
            && is_blank(b, NOT_FOUND) && response_status(a) == response_status(b)
            && response_header_count(a) == response_header_count(b) && response_body_size(a)
            == response_body_size(b),
{
    law_unassigned_answers_not_found(endpoint);
}

/// The answer to a failure shows nothing of the failure: where the inner
/// unit can only fail on two requests, with whatever errors, the replies
/// are blank successful responses, equal in status, headers and body.
pub proof fn law_fallback_ignores_the_failure<S: Service>(
    adapter: EndpointService<S>,
    first: HttpRequest,
    second: HttpRequest,
    first_reply: Reply,
    second_reply: Reply,
) where S::Future: 'static
    requires
        adapter.yields(first, first_reply),
        adapter.yields(second, second_reply),
        forall|outcome: Outcome| #[trigger]
            adapter.service.yields(first, outcome) ==> outcome is Err,
        forall|outcome: Outcome| #[trigger]
            adapter.service.yields(second, outcome) ==> outcome is Err,
    ensures
        first_reply matches Ok(a) && second_reply matches Ok(b) && is_blank(a, OK) && is_blank(
            b,
            OK,
        ) && response_status(a) == response_status(b) && response_header_count(a)
            == response_header_count(b) && response_body_size(a) == response_body_size(b),
{
    law_failure_is_answered(adapter, first, first_reply);
    law_failure_is_answered(adapter, second, second_reply);
}

/// A processor built around a handler function is steady: no operation
/// changes what it polls and what it yields.
pub proof fn law_handler_processors_are_steady<F, T, R, U>(processor: HandlerService<F, T, R, U>) where
    F: Factory<T, R, U>,
    T: FromRequest,
    R: Future<Output = U> + 'static,
    U: ToResponse + 'static,

    ensures
        processor.steady(),
{
}

/// Forgetting the type of a processor changes no answer: a boxed processor
/// that answers as an unassigned one is always ready and answers every
/// request with a blank "not found" response, and with nothing else.
pub proof fn law_erasure_keeps_not_found(
    boxed: BoxedEndpointService,
    endpoint: Endpoint<NotFoundService>,
)
    requires
        answers_as(&boxed, &endpoint.handler),
    ensures
        forall|request: HttpRequest, reply: Reply|
            boxed.yields(request, reply) <==> (reply matches Ok(response) && is_blank(
                response,
                NOT_FOUND,
            )),
        forall|readiness: TransportReadiness|
            boxed.polls(readiness) <==> readiness == Poll::Ready(Ok::<(), hyper::Error>(())),
{
    law_unassigned_answers_not_found(endpoint);
    assert forall|readiness: TransportReadiness|
        endpoint.handler.polls(readiness) <==> readiness == Poll::Ready(
            Ok::<(), hyper::Error>(()),
        ) by {
        let inner: Readiness = Poll::Ready(Ok(()));
        if readiness == Poll::Ready(Ok::<(), hyper::Error>(())) {
            assert(endpoint.handler.service.polls(inner) && readiness == flattened(inner));
        }
    }
}

} // verus!
