use std::fmt;

use updown::client::{check_status, request_url, status_display, ApiError};
use updown::config::{Config, ConfigError};

/// An `ApiError` carried through `anyhow`, as the command line carries it.
#[derive(Debug)]
struct Carried(ApiError);

impl fmt::Display for Carried {
    fn fmt(&self, f: &mut fmt::Formatter<'_>) -> fmt::Result {
        f.write_str(&self.0.message)
    }
}

impl std::error::Error for Carried {}

#[test]
fn test_api_error_downcast() {
    let err = ApiError {
        status_code: 401,
        message: "Authentication failed".to_string(),
    };
    let anyhow_err: anyhow::Error = Carried(err).into();
    let downcast = &anyhow_err.downcast_ref::<Carried>().unwrap().0;
    assert_eq!(downcast.status_code, 401);
    assert_eq!(downcast.message, "Authentication failed");
}

#[test]
fn success_statuses_pass() {
    assert!(check_status(200, "https://updown.io/api/checks", "").is_ok());
    assert!(check_status(204, "https://updown.io/api/checks", "").is_ok());
    assert!(check_status(299, "https://updown.io/api/checks", "").is_ok());
}

#[test]
fn unauthorized_names_status_line() {
    let e = check_status(401, "https://updown.io/api/checks", "{\"error\": \"Invalid API key\"}").unwrap_err();
    assert_eq!(e.status_code, 401);
    assert_eq!(
        e.message,
        "Authentication failed (HTTP 401 Unauthorized): {\"error\": \"Invalid API key\"}"
    );
}

#[test]
fn forbidden_is_authentication_failure() {
    let e = check_status(403, "u", "no").unwrap_err();
    assert_eq!(e.message, "Authentication failed (HTTP 403 Forbidden): no");
}

#[test]
fn not_found_message() {
    let e = check_status(404, "https://updown.io/api/checks/x", "{\"error\": \"Check not found\"}").unwrap_err();
    assert_eq!(e.status_code, 404);
    assert_eq!(e.message, "Not found (HTTP 404 Not Found): {\"error\": \"Check not found\"}");
}

#[test]
fn validation_and_rate_limit_messages() {
    let e = check_status(422, "u", "bad").unwrap_err();
    assert_eq!(e.message, "Validation error (HTTP 422 Unprocessable Entity): bad");
    let e = check_status(429, "u", "slow").unwrap_err();
    assert_eq!(e.message, "Rate limited (HTTP 429 Too Many Requests): slow");
}

#[test]
fn other_errors_name_the_url() {
    let e = check_status(500, "https://updown.io/api/checks", "oops").unwrap_err();
    assert_eq!(e.status_code, 500);
    assert_eq!(
        e.message,
        "API error (HTTP 500 Internal Server Error) for https://updown.io/api/checks: oops"
    );
    let e = check_status(301, "https://x", "").unwrap_err();
    assert_eq!(e.message, "API error (HTTP 301 Moved Permanently) for https://x: ");
}

#[test]
fn unknown_status_has_no_reason() {
    assert_eq!(status_display(599), "599 <unknown status code>");
    assert_eq!(status_display(200), "200 OK");
}

#[test]
fn url_is_base_then_path() {
    assert_eq!(request_url("https://updown.io", "/api/checks"), "https://updown.io/api/checks");
}

#[test]
fn flag_key_wins() {
    let c = Config::resolve(
        Some("flag".to_string()),
        Some("env".to_string()),
        Some("file".to_string()),
        None,
    )
    .ok()
    .unwrap();
    assert_eq!(c.api_key, "flag");
    assert_eq!(c.base_url, "https://updown.io");
}

#[test]
fn env_key_beats_file() {
    let c = Config::resolve(None, Some("env".to_string()), Some("file".to_string()), Some("http://localhost:1".to_string()))
        .ok()
        .unwrap();
    assert_eq!(c.api_key, "env");
    assert_eq!(c.base_url, "http://localhost:1");
}

#[test]
fn file_key_last() {
    let c = Config::resolve(None, None, Some("file".to_string()), None).ok().unwrap();
    assert_eq!(c.api_key, "file");
}

#[test]
fn no_key_is_an_error() {
    match Config::resolve(None, None, None, None) {
        Err(e) => {
            assert!(matches!(e, ConfigError::NoApiKey));
            assert!(e.message().contains("No API key found"));
        }
        Ok(_) => panic!("a key was found"),
    }
}

#[test]
fn api_error_reads_with_its_code() {
    let e = ApiError { status_code: 401, message: "Authentication failed".to_string() };
    assert_eq!(e.display_text(), "Authentication failed (HTTP 401)");
}
