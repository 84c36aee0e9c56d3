use std::collections::HashMap;

use rakuyomi_bridge::headers::{collect_headers, headers_or_none, parse_headers, response_headers};

fn pair(name: &str, value: &str) -> (String, String) {
    (name.to_string(), value.to_string())
}

#[test]
fn json_objects_of_strings_are_read() {
    let headers = parse_headers("{\"Content-Type\": \"text/html\", \"X-A\": \"1\"}");
    assert_eq!(headers.len(), 2);
    assert_eq!(headers["Content-Type"], "text/html");
    assert_eq!(headers["X-A"], "1");
    assert!(parse_headers("{}").is_empty());
}

#[test]
fn a_key_given_twice_has_its_last_value() {
    let headers = parse_headers("{\"a\": \"1\", \"a\": \"2\"}");
    assert_eq!(headers.len(), 1);
    assert_eq!(headers["a"], "2");
}

#[test]
fn anything_else_counts_as_no_headers() {
    for text in ["", "null", "[]", "{\"a\": 1}", "{\"a\": \"b\"", "{\"a\": null}", "<NULL>"] {
        assert!(parse_headers(text).is_empty(), "{text}");
    }
    assert!(headers_or_none(None).is_empty());
    let read = HashMap::from([pair("a", "b")]);
    assert_eq!(headers_or_none(Some(read.clone())), read);
}

#[test]
fn names_are_kept_in_lower_case() {
    let map = collect_headers(&vec![pair("Content-TYPE", "Text/HTML"), pair("x_1~", "v")]).unwrap();
    let names: Vec<&str> = map.keys().map(|name| name.as_str()).collect();
    assert_eq!(names.len(), 2);
    assert!(names.contains(&"content-type"));
    assert!(names.contains(&"x_1~"));
    assert_eq!(map.get("content-type").unwrap().as_bytes(), b"Text/HTML");
}

#[test]
fn every_token_character_may_stand_in_a_name() {
    let mut accepted = String::new();
    for byte in 0u8..128 {
        let name = (byte as char).to_string();
        let map = collect_headers(&vec![(name.clone(), "v".to_string())]).unwrap();
        if map.len() == 1 {
            accepted.push_str(&name);
        }
    }
    assert_eq!(
        accepted,
        "!#$%&'*+-.0123456789ABCDEFGHIJKLMNOPQRSTUVWXYZ^_`abcdefghijklmnopqrstuvwxyz|~"
    );
}

#[test]
fn malformed_names_are_passed_over() {
    let long = "a".repeat(65536);
    let longest = "a".repeat(65535);
    let headers = vec![
        pair("", "v"),
        pair("two words", "v"),
        pair("n\u{e4}me", "v"),
        pair("colon:", "v"),
        pair(&long, "v"),
        pair(&longest, "kept"),
    ];
    let map = collect_headers(&headers).unwrap();
    assert_eq!(map.len(), 1);
    assert_eq!(map.get(longest.as_str()).unwrap().as_bytes(), b"kept");
}

#[test]
fn malformed_values_are_passed_over() {
    for byte in 0u8..128 {
        let value = format!("a{}", byte as char);
        let map = collect_headers(&vec![("n".to_string(), value.clone())]).unwrap();
        let well_formed = byte == 9 || (byte >= 32 && byte != 127);
        assert_eq!(map.len() == 1, well_formed, "{byte}");
        if well_formed {
            assert_eq!(map.get("n").unwrap().as_bytes(), value.as_bytes());
        }
    }
}

#[test]
fn values_may_go_beyond_ascii() {
    let map = collect_headers(&vec![pair("n", "gr\u{fc}n \u{1f600}"), pair("e", "")]).unwrap();
    assert_eq!(map.get("n").unwrap().as_bytes(), "gr\u{fc}n \u{1f600}".as_bytes());
    assert_eq!(map.get("e").unwrap().as_bytes(), b"");
}

#[test]
fn the_last_usable_header_of_a_name_stays() {
    let headers = vec![
        pair("Set-Cookie", "one"),
        pair("set-cookie", "two"),
        pair("SET-COOKIE", "bad\n"),
    ];
    let map = collect_headers(&headers).unwrap();
    assert_eq!(map.len(), 1);
    assert_eq!(map.get("set-cookie").unwrap().as_bytes(), b"two");
}

#[test]
fn distinct_headers_come_through_in_any_order() {
    let mut headers = HashMap::new();
    for i in 0..50 {
        headers.insert(format!("X-{i}"), format!("value {i}"));
    }
    headers.insert("not a name".to_string(), "v".to_string());
    let map = response_headers(headers).unwrap();
    assert_eq!(map.len(), 50);
    for i in 0..50 {
        assert_eq!(map.get(format!("x-{i}")).unwrap().as_bytes(), format!("value {i}").as_bytes());
    }
    assert!(response_headers(HashMap::new()).unwrap().is_empty());
}

#[test]
fn one_of_two_colliding_headers_stays() {
    let headers = HashMap::from([pair("ETag", "upper"), pair("etag", "lower")]);
    let map = response_headers(headers).unwrap();
    assert_eq!(map.len(), 1);
    let value = map.get("etag").unwrap().as_bytes();
    assert!(value == b"upper" || value == b"lower");
}

#[test]
fn as_many_headers_as_promised_fit() {
    let headers: Vec<(String, String)> = (0..6554).map(|i| pair(&format!("h{i}"), "v")).collect();
    assert_eq!(collect_headers(&headers).unwrap().len(), 6554);
}

#[test]
fn only_different_usable_names_take_up_room() {
    let mut headers: Vec<(String, String)> =
        (0..30000).map(|i| pair(&format!("not a name {i}"), "v")).collect();
    headers.extend((0..30000).map(|i| pair("same", &i.to_string())));
    let map = collect_headers(&headers).unwrap();
    assert_eq!(map.len(), 1);
    assert_eq!(map.get("same").unwrap().as_bytes(), b"29999");
}

#[test]
fn usable_names_are_collected_whatever_the_order() {
    let forward = vec![pair("B", "1"), pair("a", "2"), pair("b", "3"), pair("c d", "4")];
    let backward: Vec<(String, String)> = forward.iter().rev().cloned().collect();
    for headers in [forward, backward] {
        let map = collect_headers(&headers).unwrap();
        assert_eq!(map.len(), 2);
        assert!(map.contains_key("a") && map.contains_key("b"));
    }
}

#[test]
fn more_headers_than_a_map_takes_are_refused() {
    let headers: Vec<(String, String)> = (0..24577).map(|i| pair(&format!("h{i}"), "v")).collect();
    assert!(collect_headers(&headers).is_none());
}
