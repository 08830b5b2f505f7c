use axum::http::StatusCode;
use riverstone_voice_svc::endpoint::{Endpoint, Method, TIMEOUT_SECONDS};
use riverstone_voice_svc::health::{healthz, readyz};
use riverstone_voice_svc::rejection::Rejection;
use riverstone_voice_svc::settings::settle;

#[test]
fn readyz_reports_ready_when_db_is_available() {
    let (status, body) = readyz(true);
    assert_eq!(status, StatusCode::OK.as_u16());
    assert_eq!(body.as_bytes(), b"ready");
    assert_eq!(Endpoint::Readyz.path(), "/readyz");
}

#[test]
fn readyz_reports_db_down_when_pool_closed() {
    let (status, body) = readyz(false);
    assert_eq!(status, StatusCode::SERVICE_UNAVAILABLE.as_u16());
    assert_eq!(body.as_bytes(), b"db down");
}

#[test]
fn healthz_returns_plain_ok() {
    assert_eq!(healthz().as_bytes(), b"ok");
    assert_eq!(Endpoint::Healthz.path(), "/healthz");
}

#[test]
fn every_rejection_has_its_answer() {
    let cases = [
        (Rejection::MissingAuth, StatusCode::UNAUTHORIZED, "missing auth"),
        (Rejection::BadAuth, StatusCode::FORBIDDEN, "bad auth"),
        (Rejection::InvalidMode, StatusCode::UNPROCESSABLE_ENTITY, "invalid mode"),
        (Rejection::DbError, StatusCode::INTERNAL_SERVER_ERROR, "db error"),
        (Rejection::TimedOut, StatusCode::GATEWAY_TIMEOUT, "request timed out"),
    ];
    for (rejection, status, message) in cases {
        assert_eq!(rejection.status(), status.as_u16());
        assert_eq!(rejection.message(), message);
    }
}

#[test]
fn every_endpoint_has_its_method_and_path() {
    let cases = [
        (Endpoint::Healthz, Method::Get, "/healthz"),
        (Endpoint::Health, Method::Get, "/health"),
        (Endpoint::Readyz, Method::Get, "/readyz"),
        (Endpoint::BookAppointment, Method::Post, "/book_appointment"),
        (Endpoint::LogCall, Method::Post, "/log_call"),
        (Endpoint::RecentCalls, Method::Get, "/calls/recent"),
        (Endpoint::CallEnded, Method::Post, "/webhooks/call/ended"),
        (Endpoint::Kb, Method::Get, "/kb"),
    ];
    for (endpoint, method, path) in cases {
        assert_eq!(endpoint.method(), method);
        assert_eq!(endpoint.path(), path);
    }
    for (a, _, path_a) in cases {
        for (b, _, path_b) in cases {
            assert_eq!(a == b, path_a == path_b);
        }
    }
}

#[test]
fn a_request_may_take_ten_seconds() {
    assert_eq!(TIMEOUT_SECONDS, 10);
}

#[test]
fn settings_have_defaults() {
    let settings = settle(None, None, None);
    assert_eq!(settings.database, "sqlite:sqlite:calls.db");
    assert_eq!(settings.api_key, "dev-key");
    assert_eq!(settings.bind, "0.0.0.0:3000");
}

#[test]
fn settings_follow_the_environment() {
    let settings = settle(
        Some("/var/calls.db".to_string()),
        Some("secret".to_string()),
        Some("127.0.0.1:8080".to_string()),
    );
    assert_eq!(settings.database, "sqlite:/var/calls.db");
    assert_eq!(settings.api_key, "secret");
    assert_eq!(settings.bind, "127.0.0.1:8080");
}
