//! The router: a stateless dispatcher from (method, path) to a handler.
//!
//! `GET /` serves the embedded control page; `POST /led` parses the JSON
//! body and writes the requested value into the shared LED flag,
//! answering `{"success":true}`, or answers 400 leaving the flag alone
//! where the body is malformed; everything else is 404 with an empty
//! body. Handlers never block: they parse, write one flag, and return.

use vstd::prelude::*;

use crate::bytes::eq_bytes;
use crate::http::{HttpRequest, Method, SpecRequest};
use crate::json::{parse_led_body, parse_led_body_spec, success_body, success_body_bytes};
use crate::led::LedFlag;
use crate::response::{ContentType, HttpResponse};
use vstd::string::StringSliceAdditionalSpecFns;

verus! {

/// The embedded control page served at `/`.
pub const INDEX_PAGE: &'static str = "<!DOCTYPE html>\n<html>\n<head><title>LED</title></head>\n<body>\n<h1>LED control</h1>\n<button onclick=\"led(true)\">On</button>\n<button onclick=\"led(false)\">Off</button>\n<script>\nfunction led(v) {\n  fetch('/led', {method: 'POST', body: JSON.stringify({is_on: v})});\n}\n</script>\n</body>\n</html>\n";

/// The bytes of the embedded control page.
pub open spec fn index_page() -> Seq<u8> {
    INDEX_PAGE.spec_bytes()
}

/// The targets a request can be dispatched to.
#[derive(Clone, Copy, Debug, PartialEq, Eq, Structural)]
pub enum RouteTarget {
    /// `GET /`: the embedded control page.
    IndexPage,
    /// `POST /led`: write the LED flag.
    LedControl,
    /// Anything else.
    NotFound,
}

/// Where a (method, path) pair is dispatched. A pure function of its
/// arguments: the router holds no request state.
pub open spec fn spec_route(method: Method, path: Seq<u8>) -> RouteTarget {
    if method is Get && path == "/".spec_bytes() {
        RouteTarget::IndexPage
    } else if method is Post && path == "/led".spec_bytes() {
        RouteTarget::LedControl
    } else {
        RouteTarget::NotFound
    }
}

/// The LED flag's value after a request is handled: what a well-formed
/// `POST /led` body asks for, and the old value in every other case.
pub open spec fn led_after(req: SpecRequest, led0: bool) -> bool {
    if spec_route(req.method, req.path) is LedControl && parse_led_body_spec(req.body) is Some {
        parse_led_body_spec(req.body).unwrap()
    } else {
        led0
    }
}

/// The status a request is answered with.
pub open spec fn response_status(req: SpecRequest) -> int {
    match spec_route(req.method, req.path) {
        RouteTarget::IndexPage => 200,
        RouteTarget::LedControl => if parse_led_body_spec(req.body) is Some {
            200
        } else {
            400
        },
        RouteTarget::NotFound => 404,
    }
}

/// The body a request is answered with.
pub open spec fn response_body(req: SpecRequest) -> Seq<u8> {
    match spec_route(req.method, req.path) {
        RouteTarget::IndexPage => index_page(),
        RouteTarget::LedControl => if parse_led_body_spec(req.body) is Some {
            success_body()
        } else {
            Seq::empty()
        },
        RouteTarget::NotFound => Seq::empty(),
    }
}

/// The content type a request is answered with.
pub open spec fn response_content_type(req: SpecRequest) -> Option<ContentType> {
    match spec_route(req.method, req.path) {
        RouteTarget::IndexPage => Some(ContentType::Html),
        RouteTarget::LedControl => if parse_led_body_spec(req.body) is Some {
            Some(ContentType::Json)
        } else {
            None
        },
        RouteTarget::NotFound => None,
    }
}

/// Write the requested value into the LED flag and build the success
/// answer.
pub fn led_handler(is_on: bool, led: &mut LedFlag) -> (r: HttpResponse)
    ensures
        final(led)@ == is_on,
        r@.status == 200,
        r@.content_type == Some(ContentType::Json),
        r@.body == success_body(),
        r.wf(),
{
    led.set(is_on);
    HttpResponse { status: 200, content_type: Some(ContentType::Json), body: success_body_bytes() }
}

/// Maps (method, path) to a handler and carries the static content the
/// index handler serves.
pub struct Router {
    index_body: Vec<u8>,
}

impl Router {
    /// A router is well formed when it carries the embedded page.
    pub closed spec fn wf(&self) -> bool {
        self.index_body@ == index_page()
    }

    /// Which handler a (method, path) pair reaches.
    pub fn route(&self, method: Method, path: &[u8]) -> (r: RouteTarget)
        ensures
            r == spec_route(method, path@),
    {
        if method == Method::Get && eq_bytes(path, "/".as_bytes()) {
            RouteTarget::IndexPage
        } else if method == Method::Post && eq_bytes(path, "/led".as_bytes()) {
            RouteTarget::LedControl
        } else {
            RouteTarget::NotFound
        }
    }

    /// Dispatch one parsed request: serve the page, write the LED flag,
    /// or answer 404 — exactly as [`spec_route`], [`led_after`] and the
    /// response functions say, for every request.
    pub fn handle(&self, req: &HttpRequest, led: &mut LedFlag) -> (r: HttpResponse)
        requires
            self.wf(),
        ensures
            final(led)@ == led_after(req@, old(led)@),
            r@.status == response_status(req@),
            r@.body == response_body(req@),
            r@.content_type == response_content_type(req@),
            r.wf(),
    {
        match self.route(req.method, req.path.as_slice()) {
            RouteTarget::IndexPage => HttpResponse {
                status: 200,
                content_type: Some(ContentType::Html),
                body: vstd::slice::slice_to_vec(self.index_body.as_slice()),
            },
            RouteTarget::LedControl => {
                match parse_led_body(req.body.as_slice()) {
                    Some(is_on) => led_handler(is_on, led),
                    None => HttpResponse { status: 400, content_type: None, body: Vec::new() },
                }
            },
            RouteTarget::NotFound => HttpResponse {
                status: 404,
                content_type: None,
                body: Vec::new(),
            },
        }
    }
}

/// Builds the application's router, as the startup code hands it to the
/// workers.
pub struct Application;

impl Application {
    /// Build the router with its two routes and the embedded page.
    pub fn build_app(self) -> (r: Router)
        ensures
            r.wf(),
    {
        Router { index_body: vstd::slice::slice_to_vec(INDEX_PAGE.as_bytes()) }
    }
}

/// Law: handling the same request twice leaves the LED flag exactly
/// where one handling left it, whatever the request; and a well-formed
/// `POST /led` is answered 200 with the success body both times.
pub proof fn lemma_led_post_idempotent(req: SpecRequest, led0: bool)
    ensures
        led_after(req, led_after(req, led0)) == led_after(req, led0),
        spec_route(req.method, req.path) is LedControl && parse_led_body_spec(req.body) is Some
            ==> response_status(req) == 200 && response_body(req) == success_body(),
{
}

/// Law: a malformed `POST /led` body is answered 400 and leaves the LED
/// flag unchanged.
pub proof fn lemma_malformed_led_post(req: SpecRequest, led0: bool)
    requires
        spec_route(req.method, req.path) is LedControl,
        parse_led_body_spec(req.body) is None,
    ensures
        response_status(req) == 400,
        led_after(req, led0) == led0,
        response_body(req) == Seq::<u8>::empty(),
{
}

/// The program's panic handler: an unrecoverable fault halts the
/// device, forever. The endless idle loop cannot stand in verified
/// code; the driver performs the halt this orders.
pub fn panic() -> (r: crate::fault::Halt)
    ensures
        r == crate::fault::Halt::Forever,
{
    crate::fault::Halt::Forever
}

} // verus!
