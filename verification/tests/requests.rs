use std::collections::HashMap;

use rakuyomi_bridge::requests::{
    begin_request, from_app_id, net_pending, network_response, pending_request, request_ids, send_network_error,
    send_network_response, to_app_id, NetPending, RequestBuildingState,
};

#[test]
fn a_bare_request_gets_the_defaults() {
    let req = RequestBuildingState { url: None, method: None, headers: HashMap::new(), body: None };
    let pending = pending_request(7, &req);
    assert_eq!(pending.id, 7);
    assert_eq!(pending.url, "");
    assert_eq!(pending.method, "GET");
    assert!(pending.headers.is_empty());
    assert_eq!(pending.body, None);
}

#[test]
fn a_full_request_is_sent_as_it_is() {
    let headers = HashMap::from([("A".to_string(), "b".to_string())]);
    let req = RequestBuildingState {
        url: Some("https://example.com/".to_string()),
        method: Some("POST".to_string()),
        headers: headers.clone(),
        body: Some(vec![1, 2, 3]),
    };
    let pending = pending_request(u64::MAX, &req);
    assert_eq!(pending.id, u64::MAX);
    assert_eq!(pending.url, "https://example.com/");
    assert_eq!(pending.method, "POST");
    assert_eq!(pending.headers, headers);
    assert_eq!(pending.body, Some(vec![1, 2, 3]));
}

#[test]
fn request_numbers_count_from_one() {
    let mut ids = request_ids();
    assert_eq!(ids.take_id(), 1);
    assert_eq!(ids.take_id(), 2);
    assert_eq!(ids.take_id(), 3);
}

#[test]
fn request_numbers_are_distinct() {
    let mut ids = request_ids();
    let taken: std::collections::HashSet<u64> = (0..1000).map(|_| ids.take_id()).collect();
    assert_eq!(taken.len(), 1000);
}

#[test]
fn request_numbers_survive_the_way_through_the_app() {
    assert_eq!(to_app_id(1), 1);
    assert_eq!(to_app_id(u64::MAX), -1);
    assert_eq!(to_app_id(1 << 63), i64::MIN);
    assert_eq!(from_app_id(-1), u64::MAX);
    assert_eq!(from_app_id(i64::MIN), 1 << 63);
    for id in [0, 1, 2, i64::MAX as u64, 1 << 63, u64::MAX - 1, u64::MAX] {
        assert_eq!(from_app_id(to_app_id(id)), id);
    }
}

#[test]
fn app_numbers_stand_for_different_requests() {
    assert_ne!(from_app_id(1), from_app_id(-1));
    assert_ne!(from_app_id(i64::MAX), from_app_id(i64::MIN));
}

#[test]
fn an_answer_reaches_its_waiter() {
    let mut pending: NetPending<&str> = net_pending();
    assert_eq!(pending.register(5, "five"), None);
    assert_eq!(pending.register(u64::MAX, "last"), None);
    let (waiter, answer) =
        send_network_response(&mut pending, 5, 200, "{\"A\":\"b\"}", Some(vec![9])).unwrap();
    assert_eq!(waiter, "five");
    let answer = answer.unwrap();
    assert_eq!(answer.status_code, 200);
    assert_eq!(answer.headers, HashMap::from([("A".to_string(), "b".to_string())]));
    assert_eq!(answer.body, Some(vec![9]));
    let (waiter, answer) = send_network_error(&mut pending, -1, "timeout".to_string()).unwrap();
    assert_eq!(waiter, "last");
    assert_eq!(answer.unwrap_err(), "timeout");
}

#[test]
fn a_request_is_registered_before_the_app_can_be_told() {
    let mut ids = request_ids();
    let mut pending: NetPending<&str> = net_pending();
    let req = RequestBuildingState {
        url: Some("https://example.com/".to_string()),
        method: None,
        headers: HashMap::new(),
        body: None,
    };
    for (number, name) in [(1, "one"), (2, "two")] {
        let (app_id, request, left) = begin_request(&mut ids, Some(&mut pending), name, &req);
        assert_eq!(app_id, number);
        assert_eq!(request.id, number as u64);
        assert_eq!(request.url, "https://example.com/");
        assert_eq!(request.method, "GET");
        assert_eq!(left, None);
        assert_eq!(pending.take(app_id), Some(name));
    }
    let (app_id, request, left) = begin_request(&mut ids, None, "three", &req);
    assert_eq!((app_id, request.id), (3, 3));
    assert_eq!(left, Some("three"));
}

#[test]
fn a_request_is_answered_once() {
    let mut pending: NetPending<u8> = net_pending();
    pending.register(1, 10);
    assert!(send_network_response(&mut pending, 1, 200, "{}", None).is_some());
    assert!(send_network_response(&mut pending, 1, 200, "{}", None).is_none());
    assert!(send_network_error(&mut pending, 1, "late".to_string()).is_none());
}

#[test]
fn an_answer_leaves_the_other_waiters_in_place() {
    let mut pending: NetPending<u8> = net_pending();
    pending.register(1, 10);
    pending.register(2, 20);
    assert!(send_network_error(&mut pending, 3, "nobody".to_string()).is_none());
    assert_eq!(send_network_error(&mut pending, 1, "e".to_string()).unwrap().0, 10);
    assert_eq!(pending.take(2), Some(20));
    assert_eq!(pending.take(2), None);
}

#[test]
fn a_number_registered_again_displaces_the_earlier_waiter() {
    let mut pending: NetPending<u8> = net_pending();
    assert_eq!(pending.register(1, 10), None);
    assert_eq!(pending.register(1, 11), Some(10));
    assert_eq!(pending.take(1), Some(11));
}

#[test]
fn the_status_number_is_cut_to_sixteen_bits() {
    for (given, kept) in [(200, 200), (0, 0), (65535, 65535), (65536, 0), (65736, 200), (-1, 65535)] {
        assert_eq!(network_response(given, HashMap::new(), None).status_code, kept, "{given}");
    }
    assert_eq!(network_response(i32::MIN, HashMap::new(), None).status_code, 0);
    assert_eq!(network_response(-65336, HashMap::new(), None).status_code, 200);
}

#[test]
fn an_answer_without_a_body_has_an_empty_one() {
    assert_eq!(network_response(204, HashMap::new(), None).body, Some(vec![]));
    assert_eq!(network_response(200, HashMap::new(), Some(vec![0])).body, Some(vec![0]));
}

#[test]
fn unreadable_headers_do_not_hold_up_an_answer() {
    let mut pending: NetPending<u8> = net_pending();
    pending.register(1, 10);
    let (_, answer) = send_network_response(&mut pending, 1, 500, "oops", None).unwrap();
    assert!(answer.unwrap().headers.is_empty());
}
