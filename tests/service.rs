use ready_service::counter::SharedCounter;
use ready_service::decimal::decimal_string;
use ready_service::factory::{ConnectionInfo, DemoAppFactory};
use ready_service::message::{Headers, Request, Response};
use ready_service::service::{respond, DemoApp, Readiness, ServiceError};

fn request(target: &str, body: &[u8]) -> Request {
    Request {
        path_and_query: target.to_string(),
        headers: Headers::new(),
        body: body.to_vec(),
    }
}

fn counter_header(resp: &Response) -> Option<String> {
    resp.headers.get(&"X-Counter".to_string())
}

fn conn(peer: &str) -> ConnectionInfo {
    ConnectionInfo { peer: peer.to_string() }
}

#[test]
fn decimal_string_values() {
    assert_eq!(decimal_string(0), "0");
    assert_eq!(decimal_string(7), "7");
    assert_eq!(decimal_string(10), "10");
    assert_eq!(decimal_string(1234), "1234");
    assert_eq!(decimal_string(u64::MAX), "18446744073709551615");
}

#[test]
fn headers_insert_replace_and_get() {
    let mut h = Headers::new();
    assert_eq!(h.get(&"a".to_string()), None);
    h.insert("a".to_string(), "1".to_string());
    h.insert("b".to_string(), "2".to_string());
    h.insert("a".to_string(), "3".to_string());
    assert_eq!(h.get(&"a".to_string()), Some("3".to_string()));
    assert_eq!(h.get(&"b".to_string()), Some("2".to_string()));
    assert_eq!(h.get(&"c".to_string()), None);
}

#[test]
fn respond_echoes_body_and_headers() {
    let mut req = request("/echo", b"hello");
    req.headers.insert("Accept".to_string(), "*/*".to_string());
    let resp = respond(req, 5).ok().unwrap();
    assert_eq!(resp.status, 200);
    assert_eq!(resp.body, b"hello".to_vec());
    assert_eq!(counter_header(&resp), Some("5".to_string()));
    assert_eq!(resp.headers.get(&"Accept".to_string()), Some("*/*".to_string()));
}

#[test]
fn respond_replaces_counter_header_of_request() {
    let mut req = request("/echo", b"");
    req.headers.insert("X-Counter".to_string(), "old".to_string());
    let resp = respond(req, 41).ok().unwrap();
    assert_eq!(counter_header(&resp), Some("41".to_string()));
}

#[test]
fn respond_fails_on_two_modulo_four() {
    for observed in [2u64, 6, 10, 1002] {
        match respond(request("/", b"x"), observed) {
            Err(ServiceError::CallFailure(m)) => {
                assert_eq!(m, "Failing 25% of the time, just for fun")
            }
            _ => panic!("call observing {} should fail", observed),
        }
    }
    for observed in [0u64, 1, 3, 4, 5, 7, 1001] {
        let resp = respond(request("/", b"x"), observed).ok().unwrap();
        assert_eq!(resp.status, 200);
        assert_eq!(resp.body, b"x".to_vec());
    }
}

#[test]
fn error_message_is_kept() {
    let e = ServiceError::ConnectionSetupFailure("handshake".to_string());
    assert_eq!(e.message(), "handshake");
    let e = ServiceError::ReadinessFailure("gone".to_string());
    assert_eq!(e.message(), "gone");
}

#[test]
fn counter_fetch_increment_returns_previous() {
    let mut c = SharedCounter::new();
    assert_eq!(c.current(), 0);
    assert_eq!(c.fetch_increment(), 0);
    assert_eq!(c.fetch_increment(), 1);
    assert_eq!(c.current(), 2);
}

#[test]
fn readiness_is_granted_and_spent() {
    let mut counter = SharedCounter::new();
    let mut app = DemoApp::new();
    assert!(!app.is_ready());
    assert!(matches!(app.poll_ready(), Readiness::Ready));
    assert!(app.is_ready());
    let _ = app.call(request("/", b""), &mut counter);
    assert!(!app.is_ready());
    assert!(matches!(app.poll_ready(), Readiness::Ready));
    assert!(app.is_ready());
}

#[test]
fn calls_observe_consecutive_distinct_values() {
    let mut counter = SharedCounter::new();
    let mut app = DemoApp::new();
    let mut seen: Vec<String> = Vec::new();
    for i in 0..20u64 {
        app.poll_ready();
        let body = vec![i as u8];
        let res = app.call(request("/", &body), &mut counter);
        if i % 4 == 2 {
            assert!(matches!(res, Err(ServiceError::CallFailure(_))));
        } else {
            let resp = res.ok().unwrap();
            assert_eq!(resp.body, body);
            let v = counter_header(&resp).unwrap();
            assert_eq!(v, i.to_string());
            assert!(!seen.contains(&v));
            seen.push(v);
        }
    }
    assert_eq!(counter.current(), 20);
    assert_eq!(seen.len(), 15);
}

#[test]
fn interleaved_instances_cover_contiguous_range() {
    let mut factory = DemoAppFactory::new();
    let mut apps: Vec<DemoApp> = Vec::new();
    for p in 0..10 {
        apps.push(factory.create(&conn(&format!("10.0.0.{}:1", p))).unwrap());
    }
    let mut observed: Vec<u64> = Vec::new();
    let mut failures = 0;
    for round in 0..100 {
        for app in apps.iter_mut() {
            app.poll_ready();
            match app.call(request("/load", &[round as u8]), &mut factory.counter) {
                Ok(resp) => observed.push(counter_header(&resp).unwrap().parse().unwrap()),
                Err(ServiceError::CallFailure(_)) => failures += 1,
                Err(_) => panic!("unexpected failure kind"),
            }
        }
    }
    assert_eq!(factory.counter.current(), 1000);
    assert_eq!(failures, 250);
    let mut sorted = observed.clone();
    sorted.sort();
    sorted.dedup();
    assert_eq!(sorted.len(), observed.len());
    let expected: Vec<u64> = (0..1000u64).filter(|v| v % 4 != 2).collect();
    assert_eq!(sorted, expected);
}

#[test]
fn two_created_services_share_one_increasing_sequence() {
    let mut factory = DemoAppFactory::new();
    let mut a = factory.create(&conn("127.0.0.1:5000")).unwrap();
    let mut b = factory.create(&conn("127.0.0.1:5001")).unwrap();
    assert_eq!(factory.counter.current(), 0);
    let mut last: Option<u64> = None;
    for i in 0..12 {
        let app = if i % 2 == 0 { &mut a } else { &mut b };
        app.poll_ready();
        if let Ok(resp) = app.call(request("/", b""), &mut factory.counter) {
            let v: u64 = counter_header(&resp).unwrap().parse().unwrap();
            if let Some(prev) = last {
                assert!(v > prev);
            }
            last = Some(v);
        }
    }
    assert_eq!(last, Some(11));
    assert_eq!(factory.counter.current(), 12);
}

#[test]
fn serve_connection_answers_each_request_in_order() {
    let mut factory = DemoAppFactory::new();
    let first = factory.serve_connection(
        &conn("a"),
        vec![request("/1", b"one"), request("/2", b"two"), request("/3", b"three")],
    );
    assert_eq!(first.len(), 3);
    let r0 = first[0].as_ref().ok().unwrap();
    assert_eq!(r0.body, b"one".to_vec());
    assert_eq!(counter_header(r0), Some("0".to_string()));
    assert_eq!(counter_header(first[1].as_ref().ok().unwrap()), Some("1".to_string()));
    assert!(matches!(first[2], Err(ServiceError::CallFailure(_))));
    let second = factory.serve_connection(&conn("b"), vec![request("/4", b"four")]);
    let r = second[0].as_ref().ok().unwrap();
    assert_eq!(r.body, b"four".to_vec());
    assert_eq!(counter_header(r), Some("3".to_string()));
    assert_eq!(factory.counter.current(), 4);
}

#[test]
fn serve_connection_with_no_requests() {
    let mut factory = DemoAppFactory::new();
    let out = factory.serve_connection(&conn("a"), Vec::new());
    assert!(out.is_empty());
    assert_eq!(factory.counter.current(), 0);
}
