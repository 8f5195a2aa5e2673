use archi::envelope::{ErrorMsg, Response};
use archi::length::{parse_length, LengthError};
use archi::payload::{PayloadFailure, BODY_LIMIT};
use archi::request::{RawRequest, Request};
use archi::router::{route, strip_leading_sep, RouteError};
use archi::status::Code;
use hyper::Body;

fn raw(path: &str, content_length: Option<&[u8]>) -> RawRequest {
    RawRequest {
        path: path.to_string(),
        content_length: content_length.map(|v| v.to_vec()),
        body: Body::empty(),
    }
}

fn parts(r: Result<(String, String), RouteError>) -> (String, String) {
    r.expect("the path routes")
}

#[test]
fn route_without_separator_is_not_found() {
    assert_eq!(route("nomodule"), Err(RouteError::NotFound));
    assert_eq!(route("x"), Err(RouteError::NotFound));
    assert_eq!(route("index.html"), Err(RouteError::NotFound));
}

#[test]
fn route_empty_is_landing_resource() {
    assert_eq!(parts(route("")), ("static".to_string(), "index.html".to_string()));
}

#[test]
fn route_splits_at_first_separator() {
    assert_eq!(parts(route("users/get")), ("users".to_string(), "get".to_string()));
    assert_eq!(parts(route("m/a/b")), ("m".to_string(), "a/b".to_string()));
    assert_eq!(parts(route("m/a/")), ("m".to_string(), "a/".to_string()));
    assert_eq!(parts(route("/x")), ("".to_string(), "x".to_string()));
}

#[test]
fn route_keeps_non_ascii_characters() {
    assert_eq!(parts(route("ünï/çødé")), ("ünï".to_string(), "çødé".to_string()));
}

#[test]
fn route_missing_method_is_bad_request() {
    let e = route("m/").unwrap_err();
    assert_eq!(e, RouteError::BadRequest);
    assert_eq!(e.message(), "Need a method name");
    assert_eq!(e.code(), Code::BadRequest);
    assert_eq!(route("/"), Err(RouteError::BadRequest));
}

#[test]
fn route_not_found_message() {
    let e = route("abc").unwrap_err();
    assert_eq!(e.message(), "Invalid method name");
    assert_eq!(e.code(), Code::NotFound);
}

#[test]
fn route_twice_gives_same_result() {
    for p in ["", "m/", "nomodule", "a/b/c", "users/get"] {
        assert_eq!(route(p), route(p));
    }
}

#[test]
fn strip_drops_only_a_leading_separator() {
    assert_eq!(strip_leading_sep("/users/get"), "users/get");
    assert_eq!(strip_leading_sep("nomodule"), "nomodule");
    assert_eq!(strip_leading_sep("/"), "");
    assert_eq!(strip_leading_sep(""), "");
    assert_eq!(strip_leading_sep("//a"), "/a");
}

#[test]
fn scenario_no_headers() {
    let (module, req) = Request::froom(raw("/users/get", None)).unwrap();
    assert_eq!(module, "users");
    assert_eq!(req.method, "get");
    assert!(req.body.is_none());
    assert_eq!(req.body_len(), 0);
    assert!(req.username().is_none());
}

#[test]
fn scenario_declared_length() {
    let (module, req) = Request::froom(raw("/users/get", Some(b"42"))).unwrap();
    assert_eq!(module, "users");
    assert_eq!(req.method, "get");
    assert!(req.body.is_some());
    assert_eq!(req.body_len(), 42);
    assert!(req.username().is_none());
}

#[test]
fn scenario_root_path() {
    let (module, req) = Request::froom(raw("/", None)).unwrap();
    assert_eq!(module, "static");
    assert_eq!(req.method, "index.html");
}

#[test]
fn scenario_missing_method() {
    let resp = Request::froom(raw("/users/", None)).unwrap_err();
    assert_eq!(resp.code(), 400);
    assert_eq!(resp.body(), "{\"error\":\"Need a method name\"}");
}

#[test]
fn scenario_no_module() {
    let resp = Request::froom(raw("nomodule", None)).unwrap_err();
    assert_eq!(resp.code(), 404);
    assert_eq!(resp.body(), "{\"error\":\"Invalid method name\"}");
}

#[test]
fn scenario_unreadable_length() {
    let resp = Request::froom(raw("/users/get", Some(b"4x2"))).unwrap_err();
    assert_eq!(resp.code(), 500);
    assert_eq!(resp.body(), "{\"error\":\"invalid digit found in string\"}");
    let resp = Request::froom(raw("/users/get", Some(b"4\x012"))).unwrap_err();
    assert_eq!(resp.code(), 500);
    assert_eq!(resp.body(), "{\"error\":\"failed to convert header to a str\"}");
}

#[test]
fn routing_failure_wins_over_length() {
    let resp = Request::froom(raw("/users/", Some(b"zz"))).unwrap_err();
    assert_eq!(resp.code(), 400);
}

#[test]
fn length_values() {
    assert_eq!(parse_length(b"0"), Ok(0));
    assert_eq!(parse_length(b"42"), Ok(42));
    assert_eq!(parse_length(b"+7"), Ok(7));
    assert_eq!(parse_length(b"007"), Ok(7));
    assert_eq!(parse_length(b"18446744073709551615"), Ok(u64::MAX));
}

#[test]
fn length_errors() {
    assert_eq!(parse_length(b""), Err(LengthError::Empty));
    assert_eq!(parse_length(b"+"), Err(LengthError::InvalidDigit));
    assert_eq!(parse_length(b"-"), Err(LengthError::InvalidDigit));
    assert_eq!(parse_length(b"-5"), Err(LengthError::InvalidDigit));
    assert_eq!(parse_length(b" 5"), Err(LengthError::InvalidDigit));
    assert_eq!(parse_length(b"5 "), Err(LengthError::InvalidDigit));
    assert_eq!(parse_length(b"18446744073709551616"), Err(LengthError::Overflow));
    assert_eq!(parse_length(b"99999999999999999999x"), Err(LengthError::Overflow));
    assert_eq!(parse_length(b"9x9999999999999999999"), Err(LengthError::InvalidDigit));
    assert_eq!(parse_length(b"\x7f"), Err(LengthError::NotText));
    assert_eq!(parse_length(&[0xc3, 0xa9]), Err(LengthError::NotText));
    assert_eq!(parse_length(b"\t"), Err(LengthError::InvalidDigit));
}

#[test]
fn length_messages() {
    assert_eq!(LengthError::Empty.message(), "cannot parse integer from empty string");
    assert_eq!(LengthError::Overflow.message(), "number too large to fit in target type");
}

#[test]
fn status_codes() {
    let all = [
        (Code::OK, 200),
        (Code::Created, 201),
        (Code::Accepted, 202),
        (Code::NoContent, 204),
        (Code::PartialContent, 206),
        (Code::BadRequest, 400),
        (Code::Unauthorized, 401),
        (Code::Forbidden, 403),
        (Code::NotFound, 404),
        (Code::MethodNotAllowed, 405),
        (Code::NotAcceptable, 406),
        (Code::TimeOut, 408),
        (Code::Conflict, 409),
        (Code::LengthRequired, 411),
        (Code::PayloadToLarge, 413),
        (Code::UnsupportedMediaType, 415),
        (Code::RangeNotSatisfiable, 416),
        (Code::InternalServerError, 500),
    ];
    for (c, n) in all {
        assert_eq!(c.as_u16(), n);
    }
}

#[test]
fn error_envelope() {
    let m = ErrorMsg::new("boom");
    assert_eq!(m.error(), "boom");
    assert_eq!(m.to_json_string(), "{\"error\":\"boom\"}");
    assert_eq!(ErrorMsg::new("").to_json_string(), "{\"error\":\"\"}");
    assert_eq!(ErrorMsg::new("a\"b").to_json_string(), "{\"error\":\"a\"b\"}");
}

#[test]
fn response_new_and_length() {
    let r = Response::new(Code::Created, "héllo");
    assert_eq!(r.code(), 201);
    assert_eq!(r.body(), "héllo");
    assert_eq!(r.body_len(), 6);
    let f = Response::failure(Code::Forbidden, "no");
    assert_eq!(f.code(), 403);
    assert_eq!(f.body(), "{\"error\":\"no\"}");
    assert_eq!(f.body_len(), 14);
}

#[test]
fn payload_failures() {
    let r = PayloadFailure::Overflow.to_response();
    assert_eq!((r.code(), r.body()), (413, "{\"error\":\"Body too large\"}"));
    let r = PayloadFailure::ContentType.to_response();
    assert_eq!((r.code(), r.body()), (415, "{\"error\":\"Invalid content Type\"}"));
    let r = PayloadFailure::Deserialize("expected value".to_string()).to_response();
    assert_eq!((r.code(), r.body()), (400, "{\"error\":\"expected value\"}"));
    let r = PayloadFailure::Payload("closed".to_string()).to_response();
    assert_eq!((r.code(), r.body()), (400, "{\"error\":\"closed\"}"));
    assert_eq!(BODY_LIMIT, 4096);
}
