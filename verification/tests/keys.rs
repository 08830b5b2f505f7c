use axum::http::header::AUTHORIZATION;
use axum::http::{HeaderMap, HeaderValue};
use riverstone_voice_svc::auth::{check_key, require_key};
use riverstone_voice_svc::rejection::Rejection;

fn headers(value: &'static str) -> HeaderMap {
    let mut headers = HeaderMap::new();
    headers.insert(AUTHORIZATION, HeaderValue::from_static(value));
    headers
}

#[test]
fn require_key_rejects_missing_header() {
    let headers = HeaderMap::new();

    let result = require_key(&headers, "expected");
    assert_eq!(result, Err(Rejection::MissingAuth));
    let rejection = result.unwrap_err();
    assert_eq!(
        (rejection.status(), rejection.message()),
        (axum::http::StatusCode::UNAUTHORIZED.as_u16(), "missing auth")
    );
}

#[test]
fn require_key_rejects_wrong_header() {
    let mut headers = HeaderMap::new();
    headers.insert(
        axum::http::header::AUTHORIZATION,
        HeaderValue::from_static("Bearer nope"),
    );

    let result = require_key(&headers, "expected");
    assert_eq!(result, Err(Rejection::BadAuth));
    let rejection = result.unwrap_err();
    assert_eq!(
        (rejection.status(), rejection.message()),
        (axum::http::StatusCode::FORBIDDEN.as_u16(), "bad auth")
    );
}

#[test]
fn require_key_accepts_correct_header() {
    let mut headers = HeaderMap::new();
    headers.insert(
        axum::http::header::AUTHORIZATION,
        HeaderValue::from_static("Bearer expected"),
    );

    let result = require_key(&headers, "expected");
    assert!(result.is_ok());
}

#[test]
fn the_text_must_be_exact() {
    for text in [
        "", "expected", "Bearer", "Bearer ", "bearer expected", "Bearer  expected",
        "Bearer expected ", "Bearer expecte", "Bearer Expected", "Basic expected",
    ] {
        assert_eq!(check_key(Some(text), "expected"), Err(Rejection::BadAuth), "{text}");
        assert_eq!(require_key(&headers(text), "expected"), Err(Rejection::BadAuth), "{text}");
    }
    assert_eq!(check_key(Some("Bearer expected"), "expected"), Ok(()));
    assert_eq!(check_key(None, "expected"), Err(Rejection::MissingAuth));
    assert_eq!(check_key(Some("Bearer "), ""), Ok(()));
}

#[test]
fn other_headers_carry_no_key() {
    let mut headers = HeaderMap::new();
    headers.insert(
        axum::http::header::PROXY_AUTHORIZATION,
        HeaderValue::from_static("Bearer expected"),
    );
    assert_eq!(require_key(&headers, "expected"), Err(Rejection::MissingAuth));
}

#[test]
fn the_first_of_several_values_counts() {
    let mut good = headers("Bearer expected");
    good.append(AUTHORIZATION, HeaderValue::from_static("Bearer nope"));
    assert_eq!(require_key(&good, "expected"), Ok(()));

    let mut bad = headers("Bearer nope");
    bad.append(AUTHORIZATION, HeaderValue::from_static("Bearer expected"));
    assert_eq!(require_key(&bad, "expected"), Err(Rejection::BadAuth));
}

#[test]
fn bytes_that_are_no_text_are_refused() {
    let mut headers = HeaderMap::new();
    headers.insert(
        AUTHORIZATION,
        HeaderValue::from_bytes("Bearer caf\u{e9}".as_bytes()).unwrap(),
    );
    assert_eq!(require_key(&headers, "caf\u{e9}"), Err(Rejection::BadAuth));
    assert_eq!(require_key(&headers, ""), Err(Rejection::BadAuth));
    // As plain text the same key would be right.
    assert_eq!(check_key(Some("Bearer caf\u{e9}"), "caf\u{e9}"), Ok(()));
}

#[test]
fn a_tab_is_text() {
    assert_eq!(require_key(&headers("Bearer a\tb"), "a\tb"), Ok(()));
}

#[test]
fn a_header_fits_one_key() {
    let headers = headers("Bearer one");
    assert_eq!(require_key(&headers, "one"), Ok(()));
    for key in ["two", "on", "one ", "", "ONE"] {
        assert_eq!(require_key(&headers, key), Err(Rejection::BadAuth));
    }
}
