use std::collections::HashMap;

use rakuyomi_bridge::requests::{network_response, NetworkResponse};
use rakuyomi_bridge::response::{
    app_called, assemble_response, finish_request, AppCall, BridgeError,
};
use reqwest::header::HeaderMap;

fn answer(status_code: u16) -> NetworkResponse {
    NetworkResponse { status_code, headers: HashMap::new(), body: Some(vec![1, 2]) }
}

#[test]
fn an_answer_becomes_the_response() {
    let headers = HashMap::from([("Content-Type".to_string(), "image/png".to_string())]);
    let given = network_response(200, headers, Some(vec![1, 2]));
    let data = finish_request("https://Example.com/a b", Some(Ok(given))).unwrap();
    assert_eq!(data.url, "https://example.com/a%20b");
    assert_eq!(data.status_code, 200);
    assert_eq!(data.headers.len(), 1);
    assert_eq!(data.headers.get("content-type").unwrap().as_bytes(), b"image/png");
    assert_eq!(data.body, Some(vec![1, 2]));
    assert_eq!(data.bytes_read, 0);
}

#[test]
fn a_closed_way_back_is_reported() {
    let error = finish_request("https://example.com", None).unwrap_err();
    assert!(matches!(error, BridgeError::Dropped));
    assert_eq!(error.message(), "Bridge dropped");
}

#[test]
fn a_failure_in_the_app_is_passed_on() {
    let error =
        finish_request("https://example.com", Some(Err("no route".to_string()))).unwrap_err();
    assert!(matches!(error, BridgeError::Failed(_)));
    assert_eq!(error.message(), "no route");
}

#[test]
fn a_request_without_a_url_gets_no_response() {
    let error = finish_request("", Some(Ok(answer(200)))).unwrap_err();
    assert!(matches!(error, BridgeError::InvalidUrl(_)));
    assert_eq!(error.message(), "relative URL without a base");
}

#[test]
fn status_numbers_have_three_digits() {
    for (code, valid) in [(0, false), (99, false), (100, true), (404, true), (999, true), (1000, false)]
    {
        let response = finish_request("http://localhost/", Some(Ok(answer(code))));
        assert_eq!(response.is_ok(), valid, "{code}");
        match response {
            Ok(data) => assert_eq!(data.status_code, code),
            Err(error) => {
                assert!(matches!(error, BridgeError::InvalidStatus(_)));
                assert_eq!(error.message(), "invalid status code");
            }
        }
    }
}

#[test]
fn a_bad_url_is_reported_before_a_bad_status() {
    let error = finish_request("nowhere", Some(Ok(answer(7)))).unwrap_err();
    assert!(matches!(error, BridgeError::InvalidUrl(_)));
}

#[test]
fn too_many_headers_are_reported_before_a_bad_url() {
    let mut given = answer(7);
    given.headers = (0..30000).map(|i| (format!("h{i}"), "v".to_string())).collect();
    let error = finish_request("nowhere", Some(Ok(given))).unwrap_err();
    assert!(matches!(error, BridgeError::TooManyHeaders));
    assert_eq!(error.message(), "size overflows MAX_SIZE");
}

#[test]
fn unusable_headers_do_not_stand_in_the_way_of_a_response() {
    let mut given = answer(200);
    given.headers = (0..30000).map(|i| (format!("no name {i}"), "v".to_string())).collect();
    let data = finish_request("http://localhost/", Some(Ok(given))).unwrap();
    assert_eq!(data.status_code, 200);
    assert!(data.headers.is_empty());
}

#[test]
fn responses_are_assembled_from_their_parts() {
    let data =
        assemble_response(Ok("u".to_string()), Ok(201), HeaderMap::new(), None).unwrap();
    assert_eq!(data.url, "u");
    assert_eq!(data.status_code, 201);
    assert!(data.headers.is_empty());
    assert_eq!(data.body, None);
    let error = assemble_response(
        Err("bad url".to_string()),
        Err("bad status".to_string()),
        HeaderMap::new(),
        None,
    )
    .unwrap_err();
    assert_eq!(error.message(), "bad url");
    let error = assemble_response(
        Ok("u".to_string()),
        Err("bad status".to_string()),
        HeaderMap::new(),
        None,
    )
    .unwrap_err();
    assert_eq!(error.message(), "bad status");
}

#[test]
fn only_an_unattached_thread_ends_a_request() {
    assert_eq!(app_called(3, AppCall::Made).unwrap(), None);
    assert_eq!(
        app_called(3, AppCall::Raised { report: "boom".to_string() }).unwrap().unwrap(),
        "failed to call onNetworkRequest: boom"
    );
    assert_eq!(
        app_called(305, AppCall::NoString).unwrap().unwrap(),
        "failed to create JString for request 305"
    );
    assert_eq!(
        app_called(3, AppCall::NoClass).unwrap().unwrap(),
        "SERVER_CLASS not initialized, cannot call Kotlin"
    );
    assert_eq!(
        app_called(3, AppCall::NoVm).unwrap().unwrap(),
        "JAVA_VM not initialized, cannot call Kotlin"
    );
    let error =
        app_called(3, AppCall::NotAttached { report: "detached".to_string() }).unwrap_err();
    assert!(matches!(error, BridgeError::NotAttached(_)));
    assert_eq!(error.message(), "detached");
}
