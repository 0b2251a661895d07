//! Backend API surface: the fixed backend configuration and the health
//! check. The single outbound request itself is I/O and lives with the
//! host; what is verified here is the classification of its outcome into
//! the success value or one of three caller-facing error strings.

use vstd::prelude::*;
use vstd::string::*;
use crate::text::{dec_digits, u16_to_decimal};

verus! {

/// Connection settings handed to the hosted web content.
#[derive(Debug, PartialEq, Eq)]
pub struct ApiConfig {
    pub backend_url: String,
    /// Client-side request timeout, in milliseconds.
    pub timeout: u64,
}

/// The health endpoint's reply: a JSON object with a single `status`
/// string field.
#[derive(Debug, PartialEq, Eq)]
pub struct HealthResponse {
    pub status: String,
}

/// The production backend URL, compiled in.
pub open spec fn spec_backend_url() -> Seq<char> {
    "https://flow.axiestudio.se"@
}

/// Returns the production backend URL; this cannot fail.
pub fn get_backend_url() -> (r: Result<String, String>)
    ensures
        r matches Ok(u) && u@ == spec_backend_url(),
{
    Ok(String::from_str("https://flow.axiestudio.se"))
}

/// Returns the fixed client configuration: the backend URL and a 30 second
/// timeout; this cannot fail.
pub fn get_api_config() -> (r: Result<ApiConfig, String>)
    ensures
        r matches Ok(c) && c.backend_url@ == spec_backend_url() && c.timeout == 30000,
{
    Ok(ApiConfig { backend_url: String::from_str("https://flow.axiestudio.se"), timeout: 30000 })
}

/// What the single bounded health request observed, as plain values:
/// either the connection failed (a refusal, or the 10 second ceiling
/// expired), or a response arrived with a status code and a body.
#[derive(Debug, PartialEq, Eq)]
pub enum FetchOutcome {
    ConnectionFailure { detail: String },
    Response { status: u16, body: String },
}

/// A status code counts as success exactly when it is in the 2xx class.
pub open spec fn spec_status_is_success(status: u16) -> bool {
    200 <= status < 300
}

/// What JSON deserialization makes of a health response body: the `status`
/// string the body carries when it is a JSON document with a string field
/// named `status`, or the parse-error description when it is not.
pub uninterp spec fn health_status_of(body: Seq<char>) -> Result<Seq<char>, Seq<char>>;

/// Relies on serde_json::from_str to parse the body into a JSON value, on
/// Value::get to pick out its "status" field, and on serde_json::from_value
/// to read that field as a string, so that every failure carries
/// serde_json's own error description. The result — the status string or
/// the description — is a function of the body text alone.
#[verifier::external_body]
fn parse_health_body(body: &str) -> (r: Result<String, String>)
    ensures
        r matches Ok(s) ==> (health_status_of(body@) matches Ok(t) && t == s@),
        r matches Err(d) ==> (health_status_of(body@) matches Err(t) && t == d@),
{
    match serde_json::from_str::<serde_json::Value>(body) {
        Ok(v) => {
            let field = v.get("status").cloned().unwrap_or(serde_json::Value::Null);
            serde_json::from_value::<String>(field).map_err(|e| e.to_string())
        },
        Err(e) => Err(e.to_string()),
    }
}

/// The error string for a connection that could not be made.
pub open spec fn spec_network_failure_message(detail: Seq<char>) -> Seq<char> {
    "Failed to connect to backend: "@ + detail
}

/// The error string for a response outside the success class; it carries
/// the status code in decimal.
pub open spec fn spec_http_status_message(status: u16) -> Seq<char> {
    "Backend health check failed with status: "@ + dec_digits(status as nat)
}

/// The error string for a success response whose body did not parse; it
/// carries the parse-error description.
pub open spec fn spec_parse_failure_message(detail: Seq<char>) -> Seq<char> {
    "Failed to parse health response: "@ + detail
}

/// Classifies the outcome of the health request. Success requires both a
/// success status code and a parseable body; connection failure, a
/// non-success status and an unparseable body are three distinct error
/// strings, and nothing else is ever returned.
pub fn check_backend_health(outcome: FetchOutcome) -> (r: Result<HealthResponse, String>)
    ensures
        outcome matches FetchOutcome::ConnectionFailure { detail } ==> (r matches Err(m) && m@
            == spec_network_failure_message(detail@)),
        outcome matches FetchOutcome::Response { status, body } ==> {
            &&& !spec_status_is_success(status) ==> (r matches Err(m) && m@
                == spec_http_status_message(status))
            &&& spec_status_is_success(status) ==> (health_status_of(body@) matches Ok(s) ==> (
            r matches Ok(h) && h.status@ == s))
            &&& spec_status_is_success(status) ==> (health_status_of(body@) matches Err(d) ==> (
            r matches Err(m) && m@ == spec_parse_failure_message(d)))
        },
{
    match outcome {
        FetchOutcome::ConnectionFailure { detail } => {
            let mut m = String::from_str("Failed to connect to backend: ");
            m.append(detail.as_str());
            Err(m)
        },
        FetchOutcome::Response { status, body } => {
            if !(200 <= status && status < 300) {
                let mut m = String::from_str("Backend health check failed with status: ");
                let d = u16_to_decimal(status);
                m.append(d.as_str());
                Err(m)
            } else {
                match parse_health_body(body.as_str()) {
                    Ok(s) => Ok(HealthResponse { status: s }),
                    Err(d) => {
                        let mut m = String::from_str("Failed to parse health response: ");
                        m.append(d.as_str());
                        Err(m)
                    },
                }
            }
        },
    }
}

} // verus!
