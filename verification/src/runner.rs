//! Classification of one whole probe invocation into its result sequence.
//!
//! The network round trip itself is performed by an unverified transport
//! adapter outside this library; it hands back either a structured response
//! or one of a closed set of failure categories, and `collect_checks` turns
//! that outcome into the ordered `CheckResult` sequence the monitoring
//! caller prints and aggregates.
use vstd::prelude::*;

use crate::checking::CheckResult;
use crate::checking::CheckView;
use crate::checking::Bounds;
use crate::checking::Limits;
use crate::checking::HttpVersion;
use crate::checking::OnRedirect;
use crate::checking::State;
use crate::checking::age_summary;
use crate::checking::bounds_state;
use crate::checking::check_body;
use crate::checking::check_document_age;
use crate::checking::check_response_time;
use crate::checking::check_status;
use crate::checking::limits_state;
use crate::checking::page_size_summary;
use crate::checking::status_state;
use crate::checking::status_summary;
use crate::checking::time_summary;

verus! {

/// The closed set of transport-layer failure categories. The adapter
/// classifies each underlying fault into exactly one of these.
#[derive(Clone, Debug, PartialEq, Eq)]
pub enum TransportError {
    Timeout,
    ConnectFailure,
    /// The adapter refused to follow a redirect under the configured
    /// policy; carries the adapter's descriptive message verbatim.
    RedirectPolicyViolation(String),
    /// Any other failure while sending the request.
    Other(String),
}

/// A structured response as the transport adapter reports it: the status
/// code, the protocol version, the body (absent when the caller asked to
/// skip fetching it), and the document age in seconds as derived from the
/// response's freshness headers (absent when no header was present or it
/// did not parse).
#[derive(Clone, Debug, PartialEq, Eq)]
pub struct HttpResponse {
    pub status: u16,
    pub version: HttpVersion,
    pub body: Option<Vec<u8>>,
    pub age_seconds: Option<u64>,
}

/// Everything one probe invocation can come back with.
#[derive(Clone, Debug, PartialEq, Eq)]
pub enum RequestOutcome {
    /// Request construction failed before any network activity.
    BuildFailure,
    /// The request was sent but the transport layer failed.
    TransportFailure(TransportError),
    /// A response arrived.
    Success(HttpResponse),
}

/// The caller's threshold configuration for the four checks.
#[derive(Clone, Copy, Debug, PartialEq, Eq, Structural)]
pub struct CheckConfig {
    pub onredirect: OnRedirect,
    pub page_size: Bounds,
    pub response_time_levels: Limits,
    pub document_age_levels: Limits,
}

/// The single result a transport failure maps to (the fixed table: timeout
/// and connection failure are CRITICAL with fixed wording, a redirect
/// violation is CRITICAL with the adapter's message, anything else is
/// UNKNOWN).
pub open spec fn transport_failure_view(e: TransportError) -> CheckView {
    match e {
        TransportError::Timeout => CheckView { state: State::Crit, summary: "timeout"@ },
        TransportError::ConnectFailure => CheckView {
            state: State::Crit,
            summary: "Failed to connect"@,
        },
        TransportError::RedirectPolicyViolation(msg) => CheckView {
            state: State::Crit,
            summary: msg@,
        },
        TransportError::Other(_) => CheckView {
            state: State::Unknown,
            summary: "Error while sending request"@,
        },
    }
}

/// The body view the body evaluator judges: the byte sequence when a body
/// was fetched.
pub open spec fn body_view(body: Option<Vec<u8>>) -> Option<Seq<u8>> {
    match body {
        Option::None => Option::None,
        Option::Some(b) => Option::Some(b@),
    }
}

/// The view of the body check's result.
pub open spec fn body_check_view(body: Option<Vec<u8>>, bounds: Bounds) -> CheckView {
    match body_view(body) {
        Option::None => CheckView { state: State::Okay, summary: "Body not checked"@ },
        Option::Some(b) => CheckView {
            state: bounds_state(b.len(), bounds),
            summary: page_size_summary(b.len(), bounds),
        },
    }
}

/// The whole result sequence one invocation produces: a single UNKNOWN on a
/// build failure, a single result per the fixed table on a transport
/// failure, and on success the status, body and response-time results in
/// that order, followed by the document-age result when an age could be
/// derived.
pub open spec fn checks_spec(
    outcome: RequestOutcome,
    elapsed_ms: u64,
    config: CheckConfig,
) -> Seq<CheckView> {
    match outcome {
        RequestOutcome::BuildFailure => seq![
            CheckView { state: State::Unknown, summary: "Error building the request"@ },
        ],
        RequestOutcome::TransportFailure(e) => seq![transport_failure_view(e)],
        RequestOutcome::Success(resp) => {
            let mandatory = seq![
                CheckView {
                    state: status_state(resp.status, config.onredirect),
                    summary: status_summary(resp.status, resp.version),
                },
                body_check_view(resp.body, config.page_size),
                CheckView {
                    state: limits_state(elapsed_ms, config.response_time_levels),
                    summary: time_summary(elapsed_ms, config.response_time_levels),
                },
            ];
            match resp.age_seconds {
                Option::None => mandatory,
                Option::Some(age) => mandatory.push(
                    CheckView {
                        state: limits_state(age, config.document_age_levels),
                        summary: age_summary(age, config.document_age_levels),
                    },
                ),
            }
        },
    }
}

/// Turns one invocation's outcome into the ordered result sequence: failures
/// short-circuit to a single result; a response is put through all four
/// threshold evaluators, the age evaluator being the only one allowed to
/// stay silent.
pub fn collect_checks(outcome: RequestOutcome, elapsed_ms: u64, config: CheckConfig) -> (results:
    Vec<CheckResult>)
    ensures
        results@.len() == checks_spec(outcome, elapsed_ms, config).len(),
        forall|i: int|
            0 <= i < results@.len() ==> #[trigger] results@[i]@ == checks_spec(
                outcome,
                elapsed_ms,
                config,
            )[i],
{
    match outcome {
        RequestOutcome::BuildFailure => {
            let mut results: Vec<CheckResult> = Vec::new();
            results.push(
                CheckResult {
                    state: State::Unknown,
                    summary: String::from_str("Error building the request"),
                },
            );
            results
        },
        RequestOutcome::TransportFailure(err) => {
            let mut results: Vec<CheckResult> = Vec::new();
            let single = match err {
                TransportError::Timeout => CheckResult {
                    state: State::Crit,
                    summary: String::from_str("timeout"),
                },
                TransportError::ConnectFailure => CheckResult {
                    state: State::Crit,
                    summary: String::from_str("Failed to connect"),
                },
                TransportError::RedirectPolicyViolation(msg) => CheckResult {
                    state: State::Crit,
                    summary: msg,
                },
                TransportError::Other(_) => CheckResult {
                    state: State::Unknown,
                    summary: String::from_str("Error while sending request"),
                },
            };
            results.push(single);
            results
        },
        RequestOutcome::Success(resp) => {
            let mut results: Vec<CheckResult> = Vec::new();
            results.push(check_status(resp.status, resp.version, config.onredirect));
            results.push(check_body(&resp.body, config.page_size));
            results.push(check_response_time(elapsed_ms, config.response_time_levels));
            match check_document_age(&resp.age_seconds, config.document_age_levels) {
                Option::None => (),
                Option::Some(age_result) => results.push(age_result),
            }
            results
        },
    }
}

/// Law: every transport failure yields exactly one result, and the
/// category-to-result mapping is exactly the fixed table — timeout is
/// CRITICAL "timeout", a connection failure is CRITICAL "Failed to
/// connect", a redirect-policy violation is CRITICAL with the adapter's
/// message verbatim, and any other failure is UNKNOWN "Error while sending
/// request".
pub proof fn lemma_transport_failure_mapping(
    e: TransportError,
    elapsed_ms: u64,
    config: CheckConfig,
)
    ensures
        checks_spec(RequestOutcome::TransportFailure(e), elapsed_ms, config).len() == 1,
        checks_spec(RequestOutcome::TransportFailure(e), elapsed_ms, config)[0]
            == transport_failure_view(e),
        e is Timeout ==> transport_failure_view(e) == (CheckView {
            state: State::Crit,
            summary: "timeout"@,
        }),
        e is ConnectFailure ==> transport_failure_view(e) == (CheckView {
            state: State::Crit,
            summary: "Failed to connect"@,
        }),
        e matches TransportError::RedirectPolicyViolation(msg) ==> transport_failure_view(e)
            == (CheckView { state: State::Crit, summary: msg@ }),
        e is Other ==> transport_failure_view(e) == (CheckView {
            state: State::Unknown,
            summary: "Error while sending request"@,
        }),
{
}

/// Law: a request-build failure short-circuits — the result sequence has
/// length one and its only element is UNKNOWN.
pub proof fn lemma_build_failure_short_circuits(elapsed_ms: u64, config: CheckConfig)
    ensures
        checks_spec(RequestOutcome::BuildFailure, elapsed_ms, config).len() == 1,
        checks_spec(RequestOutcome::BuildFailure, elapsed_ms, config)[0].state == State::Unknown,
        checks_spec(RequestOutcome::BuildFailure, elapsed_ms, config)[0].summary
            == "Error building the request"@,
{
}

/// Law: any successful response yields the three mandatory results (status,
/// body, time, in that order) plus the age result exactly when an age was
/// derived — so three or four results, never fewer than three, whatever the
/// configuration.
pub proof fn lemma_success_result_count(
    resp: HttpResponse,
    elapsed_ms: u64,
    config: CheckConfig,
)
    ensures
        resp.age_seconds is None ==> checks_spec(
            RequestOutcome::Success(resp),
            elapsed_ms,
            config,
        ).len() == 3,
        resp.age_seconds is Some ==> checks_spec(
            RequestOutcome::Success(resp),
            elapsed_ms,
            config,
        ).len() == 4,
        checks_spec(RequestOutcome::Success(resp), elapsed_ms, config).len() >= 3,
{
}

/// Law: evaluation is a pure function of the (outcome, elapsed,
/// configuration) tuple — two result sequences obtained from the same tuple
/// are identical.
pub proof fn lemma_evaluation_deterministic(
    first: Seq<CheckView>,
    second: Seq<CheckView>,
    outcome: RequestOutcome,
    elapsed_ms: u64,
    config: CheckConfig,
)
    requires
        first == checks_spec(outcome, elapsed_ms, config),
        second == checks_spec(outcome, elapsed_ms, config),
    ensures
        first == second,
{
}

} // verus!

