//! The decisions behind the local control plane: configuration, the
//! descriptors that its probes answer with, and the answers of its execute
//! endpoint.  Listening and serving are the caller's part.

use crate::auth::{credential_complete, seconds_as_unsigned};
use crate::catalog::Catalog;
use crate::coordinator::{authorize_request, decision_of, endpoint_decision};
use crate::coordinator::{ActionResult, Decision, EngineError, Session};
use crate::outside::{clock_rfc3339, clock_seconds, verified_payload};
use crate::text::{optional_view, same_text, strip_prefix, without_prefix};
use vstd::prelude::*;

verus! {

/// What the helper is configured with: the secret that credentials are signed
/// under and the base address of the remote authority.
#[derive(Debug, Clone, PartialEq, Eq)]
pub struct Config {
    pub jwt_secret: String,
    pub server_url: String,
}

/// The secret that stands in where none is configured.  It is known to
/// everyone: a deployment must set its own.
pub open spec fn default_secret() -> Seq<char> {
    "default-secret-change-in-production"@
}

/// The address that stands in where none is configured.
pub open spec fn default_server_url() -> Seq<char> {
    "http://localhost:3000"@
}

impl Config {
    /// The configuration from what the environment holds.  A value that is
    /// not set falls back to its default.
    pub fn from_values(secret: Option<String>, server_url: Option<String>) -> (config: Config)
        ensures
            config.jwt_secret@ == match secret {
                Some(secret) => secret@,
                None => default_secret(),
            },
            config.server_url@ == match server_url {
                Some(url) => url@,
                None => default_server_url(),
            },
    {
        Config {
            jwt_secret: match secret {
                Some(secret) => secret,
                None => String::from_str("default-secret-change-in-production"),
            },
            server_url: match server_url {
                Some(url) => url,
                None => String::from_str("http://localhost:3000"),
            },
        }
    }

    /// Tells whether the secret is the default one, which a deployment must
    /// not keep.
    pub fn uses_default_secret(&self) -> (r: bool)
        ensures
            r == (self.jwt_secret@ == default_secret()),
    {
        same_text(self.jwt_secret.as_str(), "default-secret-change-in-production")
    }
}

/// The credential that an `Authorization` header carries: what stands behind
/// `Bearer `, or nothing where the header is absent or of another form.
pub open spec fn bearer_of(header: Option<Seq<char>>) -> Seq<char> {
    match header {
        Some(value) => match without_prefix(value, "Bearer "@) {
            Some(token) => token,
            None => Seq::empty(),
        },
        None => Seq::empty(),
    }
}

/// The text of an optional header value.
pub open spec fn header_view(header: Option<&str>) -> Option<Seq<char>> {
    match header {
        Some(value) => Some(value@),
        None => None,
    }
}

/// Reads the credential out of an `Authorization` header.
pub fn bearer_token(header: Option<&str>) -> (token: String)
    ensures
        token@ == bearer_of(
            header_view(header)
        ),
{
    match header {
        Some(value) => match strip_prefix(value, "Bearer ") {
            Some(token) => token,
            None => String::new(),
        },
        None => String::new(),
    }
}

/// The answer of the liveness probe.
#[derive(Debug, Clone, PartialEq, Eq)]
pub struct StatusResponse {
    pub status: String,
    pub version: String,
    pub capabilities: Vec<String>,
}

/// Answers the liveness probe: the helper is up, in this version, with these
/// capabilities.
pub fn status_descriptor() -> (status: StatusResponse)
    ensures
        status.status@ == "ok"@,
        status.version@ == "0.1.0"@,
        status.capabilities.deep_view() == seq![
            "screenshot"@,
            "system_info"@,
            "process_list"@,
            "file_operations"@,
        ],
{
    let mut capabilities: Vec<String> = Vec::new();
    capabilities.push(String::from_str("screenshot"));
    capabilities.push(String::from_str("system_info"));
    capabilities.push(String::from_str("process_list"));
    capabilities.push(String::from_str("file_operations"));
    assert(capabilities.deep_view() =~= seq![
        "screenshot"@,
        "system_info"@,
        "process_list"@,
        "file_operations"@,
    ]);
    StatusResponse {
        status: String::from_str("ok"),
        version: String::from_str("0.1.0"),
        capabilities,
    }
}

/// The answer of the capture endpoint.
#[derive(Debug, Clone, PartialEq, Eq)]
pub struct ScreenshotResponse {
    pub success: bool,
    pub data: Option<String>,
    pub format: Option<String>,
    pub size: Option<usize>,
    pub timestamp: Option<String>,
    pub error: Option<String>,
    pub details: Option<String>,
}

/// The answer of the capture endpoint at `timestamp`: capture is not
/// implemented, whatever was asked.
pub fn screenshot_unavailable(timestamp: String) -> (answer: ScreenshotResponse)
    ensures
        !answer.success,
        answer.data is None,
        answer.size is None,
        optional_view(answer.format) == Some("png"@),
        optional_view(answer.timestamp) == Some(timestamp@),
        optional_view(answer.error) == Some("Not implemented"@),
        optional_view(answer.details) == Some(
            "Desktop Helper installed and reachable, but screenshot capture is not yet implemented."@,
        ),
{
    ScreenshotResponse {
        success: false,
        data: None,
        format: Some(String::from_str("png")),
        size: None,
        timestamp: Some(timestamp),
        error: Some(String::from_str("Not implemented")),
        details: Some(
            String::from_str(
                "Desktop Helper installed and reachable, but screenshot capture is not yet implemented.",
            ),
        ),
    }
}

/// Answers the capture endpoint now.
pub fn screenshot_handler() -> (answer: ScreenshotResponse)
    ensures
        !answer.success,
        answer.data is None,
        answer.size is None,
        optional_view(answer.format) == Some("png"@),
        answer.timestamp is Some,
        optional_view(answer.error) == Some("Not implemented"@),
        optional_view(answer.details) == Some(
            "Desktop Helper installed and reachable, but screenshot capture is not yet implemented."@,
        ),
{
    screenshot_unavailable(clock_rfc3339())
}

/// What the helper says of its own health.
#[derive(Debug, Clone, PartialEq, Eq)]
pub struct HealthStatus {
    pub status: String,
    pub version: String,
    pub timestamp: String,
    pub actions_available: usize,
}

/// The health of the helper at `timestamp`: it is up and offers the actions
/// of `catalog`.
pub fn health_descriptor(catalog: &Catalog, timestamp: String) -> (health: HealthStatus)
    requires
        catalog.well_formed(),
    ensures
        health.status@ == "healthy"@,
        health.version@ == "0.1.0"@,
        health.timestamp@ == timestamp@,
        health.actions_available == catalog@.dom().len(),
{
    HealthStatus {
        status: String::from_str("healthy"),
        version: String::from_str("0.1.0"),
        timestamp,
        actions_available: catalog.len(),
    }
}

/// The health of the helper now.
pub fn get_health_status(catalog: &Catalog) -> (health: HealthStatus)
    requires
        catalog.well_formed(),
    ensures
        health.status@ == "healthy"@,
        health.version@ == "0.1.0"@,
        health.actions_available == catalog@.dom().len(),
{
    health_descriptor(catalog, clock_rfc3339())
}

/// The answer of the execute endpoint.
#[derive(Debug, Clone, PartialEq, Eq)]
pub struct AutomationExecuteResponse {
    pub success: bool,
    pub output: String,
}

/// What the execute endpoint says of a request that was turned away.  Why a
/// credential was not genuine is not told.
pub open spec fn refusal_text(error: EngineError) -> Seq<char> {
    match error {
        EngineError::AuthFailure { .. } => "Unauthorized"@,
        _ => crate::coordinator::error_text(error),
    }
}

/// Answers a request that was turned away.
pub fn automation_refusal(error: &EngineError) -> (answer: AutomationExecuteResponse)
    ensures
        !answer.success,
        answer.output@ == refusal_text(*error),
{
    let output = match error {
        EngineError::AuthFailure { .. } => String::from_str("Unauthorized"),
        _ => error.message(),
    };
    AutomationExecuteResponse { success: false, output }
}

/// Answers a request that ran: the status and the transcript of the run.
pub fn automation_answer(result: &ActionResult) -> (answer: AutomationExecuteResponse)
    ensures
        answer.success == result.success,
        answer.output@ == result.message@,
{
    AutomationExecuteResponse { success: result.success, output: result.message.clone() }
}

/// What the execute endpoint says of a decision that granted nothing.
pub open spec fn decision_refusal(decision: Decision, action_id: Seq<char>) -> Seq<char> {
    match decision {
        Decision::NotFound => "Action '"@ + action_id + "' not allowlisted"@,
        Decision::Refused => "Unauthorized"@,
        Decision::Expired => "Token expired"@,
        Decision::NotReversible => "Action '"@ + action_id + "' is not reversible"@,
        Decision::Incompatible => "Action '"@ + action_id + "' not compatible with macOS"@,
        Decision::Granted { .. } => Seq::empty(),
    }
}

/// Whether `r` is what the execute endpoint makes of `decision`: a session
/// for the action that was granted, or the refusal in words.
pub open spec fn answers_decision(
    r: Result<Session, AutomationExecuteResponse>,
    decision: Decision,
    action_id: Seq<char>,
) -> bool {
    match r {
        Ok(session) => decision == (Decision::Granted {
            action: session.action@,
            claims: session.claims@,
        }),
        Err(answer) => !(decision is Granted) && !answer.success && answer.output@
            == decision_refusal(decision, action_id),
    }
}

/// Decides on a request that came to the execute endpoint with the given
/// `Authorization` header, at the moment that the clock shows.  The
/// credential is the one behind `Bearer `.  It is validated before the
/// catalog is asked: without a genuine credential the answer is
/// `Unauthorized`, with an expired one it is `Token expired`, whatever action
/// is named.
pub fn automation_execute(
    catalog: &Catalog,
    secret: &str,
    authorization: Option<&str>,
    action_id: &str,
) -> (r: Result<Session, AutomationExecuteResponse>)
    requires
        catalog.well_formed(),
    ensures
        exists|now: u64|
            answers_decision(
                r,
                #[trigger] endpoint_decision(
                    catalog@,
                    action_id@,
                    verified_payload(bearer_of(header_view(authorization)), secret@),
                    now,
                ),
                action_id@,
            ),
        !credential_complete(verified_payload(bearer_of(header_view(authorization)), secret@))
            ==> (r matches Err(answer) && answer.output@ == "Unauthorized"@),
        r matches Ok(session) ==> session.fresh_execute(bearer_of(header_view(authorization))),
{
    let token = bearer_token(authorization);
    let now = seconds_as_unsigned(clock_seconds());
    match authorize_request(catalog, secret, action_id, token.as_str(), now) {
        Ok(session) => Ok(session),
        Err(error) => {
            let answer = automation_refusal(&error);
            assert(answer.output@ == decision_refusal(
                decision_of(Err::<Session, EngineError>(error)),
                action_id@,
            ));
            Err(answer)
        },
    }
}

} // verus!
