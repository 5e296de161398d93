use bingmaps::{check_reply, decimal_string, should_wait, Error, Reply, RequestError, ResourceSet, Response};

fn reply(status: u16, lines: &[&str], body: &str) -> Reply {
    Reply {
        status,
        wait_info: lines.iter().map(|l| l.as_bytes().to_vec()).collect(),
        body: body.to_string(),
    }
}

#[test]
fn overloaded_service_asks_to_wait() {
    match check_reply(reply(503, &["1"], "")) {
        Err(Error::Bing(e)) => assert_eq!(e, RequestError { http_status: 503, should_wait: true }),
        other => panic!("{:?}", other),
    }
}

#[test]
fn empty_result_sets_give_no_locations() {
    let body = check_reply(reply(200, &[], "{\"resourceSets\": []}")).unwrap();
    let value: serde_json::Value = serde_json::from_str(&body).unwrap();
    let sets = value["resourceSets"].as_array().unwrap();
    let response: Response<u32> = Response {
        resource_sets: sets.iter().map(|_| ResourceSet { resources: vec![] }).collect(),
    };
    assert!(response.flatten_first().is_empty());
}

#[test]
fn success_statuses_hand_on_the_body() {
    for status in [200u16, 201, 204, 250, 299] {
        assert_eq!(check_reply(reply(status, &["1"], "text")).unwrap(), "text");
    }
}

#[test]
fn other_statuses_are_service_errors() {
    for status in [0u16, 100, 199, 300, 301, 400, 401, 404, 500, 503, 65535] {
        match check_reply(reply(status, &[], "{\"resourceSets\": []}")) {
            Err(Error::Bing(e)) => {
                assert_eq!(e.http_status, status);
                assert!(!e.should_wait);
            }
            other => panic!("{:?}", other),
        }
    }
}

#[test]
fn wait_hint_needs_a_line_that_is_one() {
    let lines = |v: &[&str]| v.iter().map(|l| l.as_bytes().to_vec()).collect::<Vec<_>>();
    assert!(!should_wait(&lines(&[])));
    assert!(!should_wait(&lines(&["0"])));
    assert!(!should_wait(&lines(&["11", " 1", ""])));
    assert!(should_wait(&lines(&["1"])));
    assert!(should_wait(&lines(&["0", "1"])));
    assert!(should_wait(&lines(&["1", "0"])));
    match check_reply(reply(429, &["0", "1", "2"], "")) {
        Err(Error::Bing(e)) => assert!(e.should_wait),
        other => panic!("{:?}", other),
    }
}

#[test]
fn flattening_keeps_the_first_set_in_order() {
    let response = Response {
        resource_sets: vec![
            ResourceSet { resources: vec![3, 1, 3, 2] },
            ResourceSet { resources: vec![9] },
        ],
    };
    assert_eq!(response.flatten_first(), vec![3, 1, 3, 2]);
    let response = Response { resource_sets: vec![ResourceSet::<u8> { resources: vec![] }] };
    assert!(response.flatten_first().is_empty());
    let response: Response<u8> = Response { resource_sets: vec![] };
    assert!(response.flatten_first().is_empty());
}

#[test]
fn error_texts() {
    let e = RequestError { http_status: 503, should_wait: true };
    assert_eq!(e.message(), "RequestError(503)");
    assert_eq!(RequestError::default(), RequestError { http_status: 0, should_wait: false });
    let err = Error::from(e);
    assert_eq!(err.description(), "error reported by bing maps");
    assert_eq!(err.message(), "error reported by bing maps: RequestError(503)");
    assert_eq!(Error::Http("refused".to_string()).message(), "error communicating with bing maps: refused");
    assert_eq!(Error::Io("eof".to_string()).description(), "error reading response from bing maps");
    assert_eq!(
        Error::Conversion("bad".to_string()).message(),
        "error converting between wire format and Rust types: bad"
    );
}

#[test]
fn decimal_digits() {
    assert_eq!(decimal_string(0), "0");
    assert_eq!(decimal_string(7), "7");
    assert_eq!(decimal_string(10), "10");
    assert_eq!(decimal_string(503), "503");
    assert_eq!(decimal_string(65535), "65535");
}
