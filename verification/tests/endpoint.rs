use futures::executor::block_on;
use http::{Method, StatusCode};
use hyper::body::HttpBody;
use hyper::Body;
use turbo_endpoint::endpoint::{Endpoint, NotFound, Transport};
use turbo_endpoint::handler::Factory;

fn plain_request() -> http::Request<Body> {
    http::Request::new(Body::empty())
}

fn loaded_request() -> http::Request<Body> {
    http::Request::builder()
        .method(Method::DELETE)
        .uri("/users/7?force=1")
        .header("x-trace", "abc")
        .body(Body::from("payload"))
        .unwrap()
}

fn bytes_of(response: http::Response<Body>) -> Vec<u8> {
    block_on(hyper::body::to_bytes(response.into_body())).unwrap().to_vec()
}

#[test]
fn new_endpoint_matches_every_method() {
    let endpoint = Endpoint::new();
    assert!(endpoint.method.is_none());
}

#[test]
fn new_endpoint_answers_not_found_with_empty_body() {
    let mut endpoint = Endpoint::new();
    let response = block_on(endpoint.handler.call(plain_request())).unwrap();
    assert_eq!(response.status(), StatusCode::NOT_FOUND);
    assert_eq!(response.status().as_u16(), 404);
    assert_eq!(response.body().size_hint().exact(), Some(0));
    assert!(response.headers().is_empty());
    assert!(bytes_of(response).is_empty());
}

#[test]
fn new_endpoint_answers_not_found_whatever_the_request() {
    let mut endpoint = Endpoint::new();
    let response = block_on(endpoint.handler.call(loaded_request())).unwrap();
    assert_eq!(response.status(), StatusCode::NOT_FOUND);
    assert!(bytes_of(response).is_empty());
    let again = block_on(endpoint.handler.call(plain_request())).unwrap();
    assert_eq!(again.status(), StatusCode::NOT_FOUND);
    assert!(bytes_of(again).is_empty());
}

#[test]
fn unassigned_handler_computes_a_blank_not_found() {
    let response = block_on(Factory::call(&NotFound, ()));
    assert_eq!(response.status().as_u16(), 404);
    assert_eq!(response.body().size_hint().exact(), Some(0));
    assert!(bytes_of(response).is_empty());
}

#[test]
fn get_sets_the_get_method() {
    assert_eq!(Endpoint::get().method, Some(Method::GET));
    assert_eq!(Endpoint::get().method.unwrap().as_str(), "GET");
}

#[test]
fn post_sets_the_post_method() {
    assert_eq!(Endpoint::post().method, Some(Method::POST));
    assert_eq!(Endpoint::post().method.unwrap().as_str(), "POST");
}

#[test]
fn put_sets_the_put_method() {
    assert_eq!(Endpoint::put().method, Some(Method::PUT));
    assert_eq!(Endpoint::put().method.unwrap().as_str(), "PUT");
}

#[test]
fn patch_sets_the_patch_method() {
    assert_eq!(Endpoint::patch().method, Some(Method::PATCH));
    assert_eq!(Endpoint::patch().method.unwrap().as_str(), "PATCH");
}

#[test]
fn delete_sets_the_delete_method() {
    assert_eq!(Endpoint::delete().method, Some(Method::DELETE));
    assert_eq!(Endpoint::delete().method.unwrap().as_str(), "DELETE");
}

#[test]
fn head_sets_the_head_method() {
    assert_eq!(Endpoint::head().method, Some(Method::HEAD));
    assert_eq!(Endpoint::head().method.unwrap().as_str(), "HEAD");
}

#[test]
fn method_sets_any_method() {
    assert_eq!(Endpoint::method(Method::OPTIONS).method, Some(Method::OPTIONS));
    let purge = Method::from_bytes(b"PURGE").unwrap();
    assert_eq!(Endpoint::method(purge.clone()).method, Some(purge));
}

#[test]
fn verb_endpoints_still_answer_not_found() {
    let mut endpoint = Endpoint::post();
    let response = block_on(endpoint.handler.call(loaded_request())).unwrap();
    assert_eq!(response.status(), StatusCode::NOT_FOUND);
    assert!(bytes_of(response).is_empty());
    let mut other = Endpoint::method(Method::TRACE);
    let response = block_on(other.handler.call(plain_request())).unwrap();
    assert_eq!(response.status(), StatusCode::NOT_FOUND);
}

#[test]
fn set_method_overwrites_the_filter() {
    let endpoint = Endpoint::new().set_method(Method::PUT);
    assert_eq!(endpoint.method, Some(Method::PUT));
    let endpoint = endpoint.set_method(Method::HEAD);
    assert_eq!(endpoint.method, Some(Method::HEAD));
    let endpoint = Endpoint::get().set_method(Method::POST).set_method(Method::PATCH);
    assert_eq!(endpoint.method, Some(Method::PATCH));
}

#[test]
fn set_method_keeps_the_handler() {
    let mut endpoint = Endpoint::new()
        .to(|| async { http::Response::new(Body::from("kept")) })
        .set_method(Method::PUT);
    assert_eq!(endpoint.method, Some(Method::PUT));
    let response = block_on(endpoint.handler.call(plain_request())).unwrap();
    assert_eq!(bytes_of(response), b"kept".to_vec());
}

#[test]
fn to_keeps_the_method() {
    let endpoint = Endpoint::delete().to(|| async { http::Response::new(Body::empty()) });
    assert_eq!(endpoint.method, Some(Method::DELETE));
    let endpoint = Endpoint::new().to(|| async { http::Response::new(Body::empty()) });
    assert_eq!(endpoint.method, None);
}

#[test]
fn get_endpoint_answers_the_fixed_body_of_its_handler() {
    let mut endpoint = Endpoint::get().to(|| async { http::Response::new(Body::from("hello")) });
    let request = http::Request::builder().method(Method::GET).uri("/").body(Body::empty()).unwrap();
    let response = block_on(endpoint.handler.call(request)).unwrap();
    assert_eq!(response.status(), StatusCode::OK);
    assert_eq!(bytes_of(response), b"hello".to_vec());
    let response = block_on(endpoint.handler.call(loaded_request())).unwrap();
    assert_eq!(response.status(), StatusCode::OK);
    assert_eq!(bytes_of(response), b"hello".to_vec());
}

#[test]
fn to_replaces_an_earlier_handler() {
    let mut endpoint = Endpoint::new()
        .to(|| async { http::Response::new(Body::from("first")) })
        .to(|| async { http::Response::new(Body::from("second")) });
    let response = block_on(endpoint.handler.call(plain_request())).unwrap();
    assert_eq!(bytes_of(response), b"second".to_vec());
}

#[test]
fn response_of_the_handler_comes_out_unchanged() {
    let mut endpoint = Endpoint::post().to(|| async {
        http::Response::builder()
            .status(StatusCode::CREATED)
            .header("location", "/items/3")
            .body(Body::from("made"))
            .unwrap()
    });
    let response = block_on(endpoint.handler.call(plain_request())).unwrap();
    assert_eq!(response.status().as_u16(), 201);
    assert_eq!(response.headers().get("location").unwrap(), "/items/3");
    assert_eq!(response.headers().len(), 1);
    assert_eq!(bytes_of(response), b"made".to_vec());
}

#[test]
fn error_status_of_the_handler_comes_out_unchanged() {
    let mut endpoint = Endpoint::get().to(|| async {
        http::Response::builder().status(500).body(Body::from("broken")).unwrap()
    });
    let response = block_on(endpoint.handler.call(plain_request())).unwrap();
    assert_eq!(response.status().as_u16(), 500);
    assert_eq!(bytes_of(response), b"broken".to_vec());
}

#[test]
fn handler_may_take_the_request() {
    let mut endpoint = Endpoint::get().to(|request: http::Request<Body>| async move {
        http::Response::new(Body::from(request.uri().path().to_string()))
    });
    let response = block_on(endpoint.handler.call(loaded_request())).unwrap();
    assert_eq!(response.status(), StatusCode::OK);
    assert_eq!(bytes_of(response), b"/users/7".to_vec());
}

#[test]
fn handler_may_read_the_body_of_the_request() {
    let mut endpoint = Endpoint::post().to(|request: http::Request<Body>| async move {
        let bytes = hyper::body::to_bytes(request.into_body()).await.unwrap();
        http::Response::new(Body::from(bytes))
    });
    let response = block_on(endpoint.handler.call(loaded_request())).unwrap();
    assert_eq!(bytes_of(response), b"payload".to_vec());
}

#[test]
fn endpoints_of_different_handlers_fit_one_collection() {
    let plain = Endpoint::get().to(|| async { http::Response::new(Body::from("plain")) });
    let echo = Endpoint::post().to(|request: http::Request<Body>| async move {
        http::Response::new(Body::from(request.method().as_str().to_string()))
    });
    let mut endpoints: Vec<Endpoint> = vec![plain.erase(), echo.erase(), Endpoint::new().erase()];
    assert_eq!(endpoints[0].method, Some(Method::GET));
    assert_eq!(endpoints[1].method, Some(Method::POST));
    assert_eq!(endpoints[2].method, None);
    let mut bodies = Vec::new();
    let mut statuses = Vec::new();
    for endpoint in endpoints.iter_mut() {
        let response = block_on(endpoint.handler.call(loaded_request())).unwrap();
        statuses.push(response.status().as_u16());
        bodies.push(bytes_of(response));
    }
    assert_eq!(statuses, vec![200, 200, 404]);
    assert_eq!(bodies, vec![b"plain".to_vec(), b"DELETE".to_vec(), Vec::new()]);
}

#[test]
fn erased_endpoint_answers_as_before_on_every_call() {
    let mut endpoint = Endpoint::put()
        .to(|request: http::Request<Body>| async move {
            http::Response::builder()
                .status(207)
                .header("x-path", request.uri().path())
                .body(Body::from("same"))
                .unwrap()
        })
        .erase();
    assert_eq!(endpoint.method, Some(Method::PUT));
    for _ in 0..3 {
        let response = block_on(endpoint.handler.call(loaded_request())).unwrap();
        assert_eq!(response.status().as_u16(), 207);
        assert_eq!(response.headers().get("x-path").unwrap(), "/users/7");
        assert_eq!(bytes_of(response), b"same".to_vec());
    }
}

#[test]
fn erased_unassigned_endpoint_answers_not_found_on_every_call() {
    let mut endpoint = Endpoint::new().erase();
    assert!(endpoint.method.is_none());
    for request in vec![plain_request(), loaded_request(), plain_request()] {
        let response = block_on(endpoint.handler.call(request)).unwrap();
        assert_eq!(response.status().as_u16(), 404);
        assert!(response.headers().is_empty());
        assert_eq!(response.body().size_hint().exact(), Some(0));
        assert!(bytes_of(response).is_empty());
    }
}

#[test]
fn two_requests_to_an_unassigned_endpoint_get_equal_responses() {
    let mut endpoint = Endpoint::new();
    let first = block_on(endpoint.handler.call(plain_request())).unwrap();
    let second = block_on(endpoint.handler.call(loaded_request())).unwrap();
    assert_eq!(first.status(), second.status());
    assert_eq!(first.headers(), second.headers());
    assert_eq!(first.headers().len(), 0);
    assert_eq!(first.version(), second.version());
    assert_eq!(bytes_of(first), bytes_of(second));
}

#[test]
fn erased_endpoint_is_ready() {
    let mut endpoint = Endpoint::head().erase();
    assert_eq!(endpoint.method, Some(Method::HEAD));
    let waker = futures::task::noop_waker();
    let mut cx = std::task::Context::from_waker(&waker);
    assert!(matches!(endpoint.handler.poll_ready(&mut cx), std::task::Poll::Ready(Ok(()))));
}
