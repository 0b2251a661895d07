//! Tests for the bridge command surface: greeting, version, backend
//! configuration, the health-check classification and the caller-facing
//! show of the main window.

use axie_shell::api::{
    check_backend_health, get_api_config, get_backend_url, FetchOutcome, HealthResponse,
};
use axie_shell::commands::{get_app_version, greet, show_main_window};
use axie_shell::registry::{Visibility, WindowId, WindowRegistry};
use axie_shell::text::{str_eq, u16_to_decimal};

#[test]
fn greet_formats_the_name() {
    assert_eq!(greet("World"), "Hello, World! You've been greeted from Rust!");
    assert_eq!(greet(""), "Hello, ! You've been greeted from Rust!");
}

#[test]
fn app_version_is_constant_across_calls() {
    let first = get_app_version();
    let second = get_app_version();
    assert_eq!(first, second);
    assert_eq!(first, "0.1.0");
}

#[test]
fn backend_url_is_the_fixed_production_url() {
    assert_eq!(get_backend_url(), Ok(String::from("https://flow.axiestudio.se")));
}

#[test]
fn api_config_holds_url_and_timeout() {
    let config = get_api_config().unwrap();
    assert_eq!(config.backend_url, "https://flow.axiestudio.se");
    assert_eq!(config.timeout, 30000);
}

#[test]
fn health_check_ok_status_and_ok_body_succeeds() {
    let outcome = FetchOutcome::Response {
        status: 200,
        body: String::from("{\"status\":\"ok\"}"),
    };
    assert_eq!(
        check_backend_health(outcome),
        Ok(HealthResponse { status: String::from("ok") })
    );
}

#[test]
fn health_check_accepts_whitespace_and_extra_fields() {
    let outcome = FetchOutcome::Response {
        status: 204,
        body: String::from(" { \"status\" : \"degraded\" , \"uptime\" : 3 } "),
    };
    assert_eq!(
        check_backend_health(outcome),
        Ok(HealthResponse { status: String::from("degraded") })
    );
}

#[test]
fn health_check_http_error_reports_the_status_code() {
    let outcome = FetchOutcome::Response { status: 500, body: String::from("") };
    assert_eq!(
        check_backend_health(outcome),
        Err(String::from("Backend health check failed with status: 500"))
    );
}

#[test]
fn health_check_connection_refusal_reports_network_failure() {
    let outcome = FetchOutcome::ConnectionFailure {
        detail: String::from("connection refused"),
    };
    assert_eq!(
        check_backend_health(outcome),
        Err(String::from("Failed to connect to backend: connection refused"))
    );
}

const PARSE_FAILURE_PREFIX: &str = "Failed to parse health response: ";

#[test]
fn health_check_non_json_body_reports_parse_failure() {
    let body = "<html>ok</html>";
    let outcome = FetchOutcome::Response { status: 200, body: String::from(body) };
    // The message carries serde_json's own description of the parse error.
    let detail = serde_json::from_str::<serde_json::Value>(body).unwrap_err().to_string();
    assert_eq!(
        check_backend_health(outcome),
        Err(format!("{}{}", PARSE_FAILURE_PREFIX, detail))
    );
}

#[test]
fn health_check_json_without_status_field_reports_parse_failure() {
    let outcome = FetchOutcome::Response { status: 200, body: String::from("{\"state\":\"ok\"}") };
    let err = check_backend_health(outcome).unwrap_err();
    assert!(err.starts_with(PARSE_FAILURE_PREFIX));
    assert!(err.len() > PARSE_FAILURE_PREFIX.len());
}

#[test]
fn health_check_non_string_status_reports_parse_failure() {
    let outcome = FetchOutcome::Response { status: 200, body: String::from("{\"status\":5}") };
    let err = check_backend_health(outcome).unwrap_err();
    assert!(err.starts_with(PARSE_FAILURE_PREFIX));
    assert!(err.len() > PARSE_FAILURE_PREFIX.len());
}

#[test]
fn show_main_window_without_main_reports_the_error() {
    let mut reg = WindowRegistry::new();
    let r = show_main_window(&mut reg);
    assert_eq!(r, Err(String::from("Main window not found")));
    assert_eq!(reg.main.visibility, Visibility::Uninitialized);
}

#[test]
fn show_main_window_shows_and_focuses_a_live_main() {
    let mut reg = WindowRegistry::new();
    reg.register_window(WindowId::Main);
    assert_eq!(show_main_window(&mut reg), Ok(()));
    assert_eq!(reg.main.visibility, Visibility::Shown);
    assert!(reg.main.focused);
}

#[test]
fn open_url_failure_message_carries_the_os_detail() {
    assert_eq!(
        axie_shell::commands::open_url_failure_message("No such file or directory"),
        "Failed to open URL: No such file or directory"
    );
}

#[test]
fn decimal_rendering_matches_expected_digits() {
    assert_eq!(u16_to_decimal(0), "0");
    assert_eq!(u16_to_decimal(7), "7");
    assert_eq!(u16_to_decimal(404), "404");
    assert_eq!(u16_to_decimal(65535), "65535");
}

#[test]
fn string_equality_is_exact() {
    assert!(str_eq("main", "main"));
    assert!(!str_eq("main", "Main"));
    assert!(!str_eq("main", "mainn"));
    assert!(!str_eq("", "a"));
    assert!(str_eq("", ""));
}
