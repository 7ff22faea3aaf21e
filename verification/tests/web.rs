//! HTTP parsing, response rendering, the router, and the worker pool.

use wifi_led::http::{HeadError, HttpRequest, Method, RequestParse};
use wifi_led::led::LedFlag;
use wifi_led::response::{ContentType, HttpResponse};
use wifi_led::router::{Application, RouteTarget, INDEX_PAGE};
use wifi_led::worker::{
    DataOutcome, HttpWorkerPool, WebApp, WorkerPhase, HTTP_PORT, WEB_TASK_POOL_SIZE,
};

fn complete(r: RequestParse) -> (HttpRequest, usize) {
    match r {
        RequestParse::Complete(req, used) => (req, used),
        other => panic!("expected a complete request, got {:?}", other),
    }
}

#[test]
fn get_request_parses_exactly() {
    let (req, used) = complete(wifi_led::http::parse_request(
        b"GET / HTTP/1.1\r\nHost: device\r\n\r\n",
    ));
    assert_eq!(req.method, Method::Get);
    assert_eq!(req.path, b"/".to_vec());
    assert!(req.http11);
    assert_eq!(req.body, Vec::<u8>::new());
    assert_eq!(used, 32);
}

#[test]
fn post_request_carries_exact_body() {
    let (req, used) = complete(wifi_led::http::parse_request(
        b"POST /led HTTP/1.1\r\nContent-Length: 15\r\n\r\n{\"is_on\": true}",
    ));
    assert_eq!(req.method, Method::Post);
    assert_eq!(req.path, b"/led".to_vec());
    assert_eq!(req.body, b"{\"is_on\": true}".to_vec());
    assert_eq!(used, 57);
}

#[test]
fn content_length_is_case_insensitive() {
    let (req, _) = complete(wifi_led::http::parse_request(
        b"POST /led HTTP/1.0\r\ncontent-LENGTH: 2\r\n\r\nhi",
    ));
    assert!(!req.http11);
    assert_eq!(req.body, b"hi".to_vec());
}

#[test]
fn request_is_incomplete_until_body_arrives() {
    assert!(matches!(
        wifi_led::http::parse_request(b"GET / HTTP/1.1\r\nHost: d"),
        RequestParse::Incomplete
    ));
    assert!(matches!(
        wifi_led::http::parse_request(b"POST /led HTTP/1.1\r\nContent-Length: 15\r\n\r\n{\"is_on\""),
        RequestParse::Incomplete
    ));
}

#[test]
fn unknown_method_is_kept_as_other() {
    let (req, _) = complete(wifi_led::http::parse_request(b"PUT /led HTTP/1.1\r\n\r\n"));
    assert_eq!(req.method, Method::Other);
}

#[test]
fn bad_version_is_invalid() {
    assert!(matches!(
        wifi_led::http::parse_request(b"GET / HTTP/2.0\r\n\r\n"),
        RequestParse::Invalid(HeadError::BadVersion)
    ));
    assert!(matches!(
        wifi_led::http::parse_request(b"GET /\r\n\r\n"),
        RequestParse::Invalid(HeadError::BadRequestLine)
    ));
}

#[test]
fn duplicate_content_length_is_invalid() {
    assert!(matches!(
        wifi_led::http::parse_request(
            b"POST / HTTP/1.1\r\nContent-Length: 1\r\nContent-Length: 1\r\n\r\nx"
        ),
        RequestParse::Invalid(HeadError::BadContentLength)
    ));
    assert!(matches!(
        wifi_led::http::parse_request(b"POST / HTTP/1.1\r\nContent-Length: ten\r\n\r\n"),
        RequestParse::Invalid(HeadError::BadContentLength)
    ));
}

#[test]
fn header_without_colon_is_invalid() {
    assert!(matches!(
        wifi_led::http::parse_request(b"GET / HTTP/1.1\r\nbroken header\r\n\r\n"),
        RequestParse::Invalid(HeadError::BadHeader)
    ));
}

#[test]
fn pipelined_bytes_are_counted_once() {
    let bytes = b"GET / HTTP/1.1\r\n\r\nGET /other HTTP/1.1\r\n\r\n";
    let (req, used) = complete(wifi_led::http::parse_request(bytes));
    assert_eq!(req.path, b"/".to_vec());
    assert_eq!(used, 18);
    let (req2, _) = complete(wifi_led::http::parse_request(&bytes[used..]));
    assert_eq!(req2.path, b"/other".to_vec());
}

#[test]
fn response_renders_exact_bytes() {
    let not_found = HttpResponse { status: 404, content_type: None, body: Vec::new() };
    assert_eq!(
        not_found.to_bytes(),
        b"HTTP/1.1 404 Not Found\r\nContent-Length: 0\r\n\r\n".to_vec()
    );
    let ok = HttpResponse {
        status: 200,
        content_type: Some(ContentType::Json),
        body: b"{\"success\":true}".to_vec(),
    };
    assert_eq!(
        ok.to_bytes(),
        b"HTTP/1.1 200 OK\r\nContent-Type: application/json\r\nContent-Length: 16\r\n\r\n{\"success\":true}"
            .to_vec()
    );
}

#[test]
fn outbound_get_request_is_exact() {
    assert_eq!(
        wifi_led::http::format_get_request(b"www.mobile-j.de", b"/"),
        b"GET / HTTP/1.0\r\nHost: www.mobile-j.de\r\n\r\n".to_vec()
    );
}

#[test]
fn content_length_renders_multi_digit_values() {
    let r = HttpResponse { status: 200, content_type: None, body: vec![b'x'; 123] };
    let bytes = r.to_bytes();
    assert!(bytes.starts_with(b"HTTP/1.1 200 OK\r\nContent-Length: 123\r\n\r\n"));
    assert_eq!(bytes.len(), b"HTTP/1.1 200 OK\r\nContent-Length: 123\r\n\r\n".len() + 123);
}

fn request(method: Method, path: &[u8], body: &[u8]) -> HttpRequest {
    HttpRequest { method, path: path.to_vec(), http11: true, body: body.to_vec() }
}

#[test]
fn led_flag_defaults_to_false() {
    assert!(!LedFlag::new().get());
    assert!(!LedFlag::default().get());
}

#[test]
fn routes_dispatch_as_documented() {
    let router = Application.build_app();
    assert_eq!(router.route(Method::Get, b"/"), RouteTarget::IndexPage);
    assert_eq!(router.route(Method::Post, b"/led"), RouteTarget::LedControl);
    assert_eq!(router.route(Method::Get, b"/led"), RouteTarget::NotFound);
    assert_eq!(router.route(Method::Post, b"/"), RouteTarget::NotFound);
    assert_eq!(router.route(Method::Other, b"/"), RouteTarget::NotFound);
    assert_eq!(router.route(Method::Get, b"/index.html"), RouteTarget::NotFound);
}

#[test]
fn index_is_served_as_html() {
    let router = Application.build_app();
    let mut led = LedFlag::new();
    let r = router.handle(&request(Method::Get, b"/", b""), &mut led);
    assert_eq!(r.status, 200);
    assert_eq!(r.content_type, Some(ContentType::Html));
    assert_eq!(r.body, INDEX_PAGE.as_bytes().to_vec());
    assert!(!led.get());
}

#[test]
fn led_post_sets_flag_and_reads_back() {
    let router = Application.build_app();
    let mut led = LedFlag::new();
    let r = router.handle(&request(Method::Post, b"/led", b"{\"is_on\": true}"), &mut led);
    assert_eq!(r.status, 200);
    assert_eq!(r.content_type, Some(ContentType::Json));
    assert_eq!(r.body, b"{\"success\":true}".to_vec());
    assert!(led.get());
    let r = router.handle(&request(Method::Post, b"/led", b"{\"is_on\": false}"), &mut led);
    assert_eq!(r.status, 200);
    assert!(!led.get());
}

#[test]
fn malformed_led_post_returns_400_and_leaves_flag() {
    let router = Application.build_app();
    let mut led = LedFlag::new();
    led.set(true);
    for body in [
        &b"{}"[..],
        b"{\"on\": true}",
        b"{\"is_on\": 1}",
        b"{\"is_on\": \"true\"}",
        b"not json",
        b"",
    ] {
        let r = router.handle(&request(Method::Post, b"/led", body), &mut led);
        assert_eq!(r.status, 400);
        assert_eq!(r.body, Vec::<u8>::new());
        assert!(led.get());
    }
}

#[test]
fn other_paths_get_404_with_empty_body() {
    let router = Application.build_app();
    let mut led = LedFlag::new();
    let r = router.handle(&request(Method::Get, b"/missing", b""), &mut led);
    assert_eq!(r.status, 404);
    assert_eq!(r.content_type, None);
    assert_eq!(r.body, Vec::<u8>::new());
}

#[test]
fn repeated_led_posts_are_idempotent() {
    let router = Application.build_app();
    let mut led = LedFlag::new();
    let body = b"{\"is_on\": true}";
    let r1 = router.handle(&request(Method::Post, b"/led", body), &mut led);
    let after_first = led.get();
    let r2 = router.handle(&request(Method::Post, b"/led", body), &mut led);
    assert_eq!(r1.status, 200);
    assert_eq!(r2.status, 200);
    assert_eq!(r1.body, b"{\"success\":true}".to_vec());
    assert_eq!(r2.body, r1.body);
    assert_eq!(led.get(), after_first);
    assert!(led.get());
}

#[test]
fn default_webapp_uses_standard_timeouts() {
    let app = WebApp::default();
    assert_eq!(app.config.timeouts.start_read_request, Some(5000));
    assert_eq!(app.config.timeouts.persistent_start_read_request, Some(1000));
    assert_eq!(app.config.timeouts.read_request, Some(1000));
    assert_eq!(app.config.timeouts.write, Some(1000));
    assert!(app.config.keep_alive);
    assert_eq!(WEB_TASK_POOL_SIZE, 2);
    assert_eq!(HTTP_PORT, 80);
}

fn respond(outcome: DataOutcome) -> Vec<u8> {
    match outcome {
        DataOutcome::Respond(v) => v,
        other => panic!("expected a response, got {:?}", other),
    }
}

#[test]
fn two_connections_are_served_independently() {
    let app = WebApp::default();
    let mut led = LedFlag::new();
    let mut pool = HttpWorkerPool::new(WEB_TASK_POOL_SIZE);

    // Two simultaneous connections each find their own worker.
    let first = pool.idle_worker().unwrap();
    assert_eq!(first, 0);
    pool.on_accepted(first);
    let second = pool.idle_worker().unwrap();
    assert_eq!(second, 1);
    pool.on_accepted(second);
    // A third finds none free and must wait at the transport.
    assert_eq!(pool.idle_worker(), None);

    // The first client stalls mid-request; the second is served anyway.
    let stalled = pool.on_data(first, b"POST /led HTTP/1.1\r\nContent-L", &app.config, &app.router, &mut led);
    assert!(matches!(stalled, DataOutcome::NeedMore));
    let out = respond(pool.on_data(
        second,
        b"POST /led HTTP/1.1\r\nContent-Length: 15\r\n\r\n{\"is_on\": true}",
        &app.config,
        &app.router,
        &mut led,
    ));
    assert!(led.get());
    assert!(out.starts_with(b"HTTP/1.1 200 OK\r\n"));
    assert_eq!(pool.phase_of(first), WorkerPhase::ReadingRequest);

    // The stalled client finishes later and is served by its own worker.
    let out1 = respond(pool.on_data(
        first,
        b"ength: 16\r\n\r\n{\"is_on\": false}",
        &app.config,
        &app.router,
        &mut led,
    ));
    assert!(out1.starts_with(b"HTTP/1.1 200 OK\r\n"));
    assert!(!led.get());
}

#[test]
fn silent_client_is_dropped_and_worker_freed() {
    let app = WebApp::default();
    let mut pool = HttpWorkerPool::new(WEB_TASK_POOL_SIZE);
    let i = pool.idle_worker().unwrap();
    pool.on_accepted(i);
    assert_eq!(pool.phase_of(i), WorkerPhase::AwaitFirstByte { kept_alive: false });

    // No byte arrives within the start-read window.
    let mut probe = wifi_led::worker::Worker::new();
    probe.on_accepted();
    assert_eq!(probe.timeout(&app.config), Some(5000));

    pool.on_timeout(i);
    assert_eq!(pool.phase_of(i), WorkerPhase::Accepting);
    // The worker is available again at once.
    assert_eq!(pool.idle_worker(), Some(i));
    pool.on_accepted(i);
    assert_eq!(pool.phase_of(i), WorkerPhase::AwaitFirstByte { kept_alive: false });
}

#[test]
fn kept_alive_connection_serves_second_request() {
    let app = WebApp::default();
    let mut led = LedFlag::new();
    let mut worker = wifi_led::worker::Worker::new();
    worker.on_accepted();
    let out = match worker.on_data(
        b"GET / HTTP/1.1\r\n\r\n",
        &app.config,
        &app.router,
        &mut led,
    ) {
        DataOutcome::Respond(v) => v,
        other => panic!("expected a response, got {:?}", other),
    };
    assert!(out.starts_with(b"HTTP/1.1 200 OK\r\nContent-Type: text/html\r\n"));
    // Keep-alive: the connection survives the response.
    assert!(worker.on_write_done());
    assert_eq!(worker.phase(), WorkerPhase::AwaitFirstByte { kept_alive: true });
    assert_eq!(worker.timeout(&app.config), Some(1000));
    let out2 = match worker.on_data(b"GET /x HTTP/1.1\r\n\r\n", &app.config, &app.router, &mut led)
    {
        DataOutcome::Respond(v) => v,
        other => panic!("expected a response, got {:?}", other),
    };
    assert!(out2.starts_with(b"HTTP/1.1 404 Not Found\r\n"));
}

#[test]
fn http10_connection_closes_after_response() {
    let app = WebApp::default();
    let mut led = LedFlag::new();
    let mut worker = wifi_led::worker::Worker::new();
    worker.on_accepted();
    match worker.on_data(b"GET / HTTP/1.0\r\n\r\n", &app.config, &app.router, &mut led) {
        DataOutcome::Respond(_) => {},
        other => panic!("expected a response, got {:?}", other),
    }
    assert!(!worker.on_write_done());
    assert_eq!(worker.phase(), WorkerPhase::Accepting);
}

#[test]
fn malformed_head_aborts_connection() {
    let app = WebApp::default();
    let mut led = LedFlag::new();
    let mut worker = wifi_led::worker::Worker::new();
    worker.on_accepted();
    let r = worker.on_data(b"GET / HTTP/2.0\r\n\r\n", &app.config, &app.router, &mut led);
    assert!(matches!(r, DataOutcome::Abort));
    assert_eq!(worker.phase(), WorkerPhase::Accepting);
}

#[test]
fn oversized_request_exhausts_buffer_and_aborts() {
    let app = WebApp::default();
    let mut led = LedFlag::new();
    let mut worker = wifi_led::worker::Worker::new();
    worker.on_accepted();
    // A head that never ends: more bytes than the parse buffer holds.
    let chunk = [b'a'; 512];
    let mut outcome = worker.on_data(b"GET /", &app.config, &app.router, &mut led);
    for _ in 0..4 {
        assert!(matches!(outcome, DataOutcome::NeedMore));
        outcome = worker.on_data(&chunk, &app.config, &app.router, &mut led);
    }
    assert!(matches!(outcome, DataOutcome::Abort));
    assert_eq!(worker.phase(), WorkerPhase::Accepting);
}
