use check_http::checking::{
    check_body, check_document_age, check_response_time, check_status, evaluate_limits, Bounds,
    HttpVersion, Limits, OnRedirect, State,
};
use check_http::runner::{
    collect_checks, CheckConfig, HttpResponse, RequestOutcome, TransportError,
};

fn plain_config() -> CheckConfig {
    CheckConfig {
        onredirect: OnRedirect::Follow,
        page_size: Bounds::Unbounded,
        response_time_levels: Limits::Unbounded,
        document_age_levels: Limits::Unbounded,
    }
}

fn plain_response() -> HttpResponse {
    HttpResponse {
        status: 200,
        version: HttpVersion::Http11,
        body: Some(vec![0u8; 256]),
        age_seconds: None,
    }
}

#[test]
fn transport_timeout_maps_to_critical() {
    let results = collect_checks(
        RequestOutcome::TransportFailure(TransportError::Timeout),
        0,
        plain_config(),
    );
    assert_eq!(results.len(), 1);
    assert_eq!(results[0].state, State::Crit);
    assert_eq!(results[0].summary, "timeout");
}

#[test]
fn transport_connect_failure_maps_to_critical() {
    let results = collect_checks(
        RequestOutcome::TransportFailure(TransportError::ConnectFailure),
        0,
        plain_config(),
    );
    assert_eq!(results.len(), 1);
    assert_eq!(results[0].state, State::Crit);
    assert_eq!(results[0].summary, "Failed to connect");
}

#[test]
fn transport_redirect_violation_keeps_message_verbatim() {
    let results = collect_checks(
        RequestOutcome::TransportFailure(TransportError::RedirectPolicyViolation(
            "redirect to http://example.invalid/ not followed".to_string(),
        )),
        0,
        plain_config(),
    );
    assert_eq!(results.len(), 1);
    assert_eq!(results[0].state, State::Crit);
    assert_eq!(
        results[0].summary,
        "redirect to http://example.invalid/ not followed"
    );
}

#[test]
fn transport_other_failure_maps_to_unknown() {
    let results = collect_checks(
        RequestOutcome::TransportFailure(TransportError::Other("broken pipe".to_string())),
        0,
        plain_config(),
    );
    assert_eq!(results.len(), 1);
    assert_eq!(results[0].state, State::Unknown);
    assert_eq!(results[0].summary, "Error while sending request");
}

#[test]
fn build_failure_short_circuits_to_single_unknown() {
    let results = collect_checks(RequestOutcome::BuildFailure, 0, plain_config());
    assert_eq!(results.len(), 1);
    assert_eq!(results[0].state, State::Unknown);
    assert_eq!(results[0].summary, "Error building the request");
}

#[test]
fn body_within_two_sided_bounds_is_ok() {
    let body = Some(vec![7u8; 100]);
    let r = check_body(&body, Bounds::LowerUpper(100, 200));
    assert_eq!(r.state, State::Okay);
    assert_eq!(r.summary, "Page size: 100 bytes");
    let body = Some(vec![7u8; 200]);
    let r = check_body(&body, Bounds::LowerUpper(100, 200));
    assert_eq!(r.state, State::Okay);
    let body = Some(vec![7u8; 150]);
    let r = check_body(&body, Bounds::LowerUpper(100, 200));
    assert_eq!(r.state, State::Okay);
}

#[test]
fn body_outside_two_sided_bounds_is_warning() {
    let body = Some(vec![7u8; 99]);
    let r = check_body(&body, Bounds::LowerUpper(100, 200));
    assert_eq!(r.state, State::Warn);
    assert_eq!(r.summary, "Page size: 99 bytes (warn below 100 bytes)");
    let body = Some(vec![7u8; 201]);
    let r = check_body(&body, Bounds::LowerUpper(100, 200));
    assert_eq!(r.state, State::Warn);
    assert_eq!(r.summary, "Page size: 201 bytes (warn above 200 bytes)");
}

#[test]
fn empty_body_with_zero_lower_bound_is_ok() {
    let body = Some(Vec::new());
    let r = check_body(&body, Bounds::Lower(0));
    assert_eq!(r.state, State::Okay);
    assert_eq!(r.summary, "Page size: 0 bytes");
}

#[test]
fn skipped_body_is_reported_neutral() {
    let r = check_body(&None, Bounds::Lower(1024));
    assert_eq!(r.state, State::Okay);
    assert_eq!(r.summary, "Body not checked");
}

#[test]
fn unbounded_body_check_reports_size_at_ok() {
    let body = Some(vec![1u8; 512]);
    let r = check_body(&body, Bounds::Unbounded);
    assert_eq!(r.state, State::Okay);
    assert_eq!(r.summary, "Page size: 512 bytes");
}

#[test]
fn warn_crit_limits_are_boundary_inclusive() {
    assert_eq!(evaluate_limits(199, Limits::WarnCrit(200, 250)), State::Okay);
    assert_eq!(evaluate_limits(200, Limits::WarnCrit(200, 250)), State::Warn);
    assert_eq!(evaluate_limits(249, Limits::WarnCrit(200, 250)), State::Warn);
    assert_eq!(evaluate_limits(250, Limits::WarnCrit(200, 250)), State::Crit);
    assert_eq!(evaluate_limits(251, Limits::WarnCrit(200, 250)), State::Crit);
}

#[test]
fn single_warn_limit_is_boundary_inclusive() {
    assert_eq!(evaluate_limits(199, Limits::Warn(200)), State::Okay);
    assert_eq!(evaluate_limits(200, Limits::Warn(200)), State::Warn);
    assert_eq!(evaluate_limits(201, Limits::Warn(200)), State::Warn);
}

#[test]
fn response_time_over_critical_threshold() {
    let r = check_response_time(300, Limits::WarnCrit(200, 250));
    assert_eq!(r.state, State::Crit);
    assert_eq!(r.summary, "Response time: 300ms (crit at 250ms)");
}

#[test]
fn response_time_between_thresholds_is_warning() {
    let r = check_response_time(225, Limits::WarnCrit(200, 250));
    assert_eq!(r.state, State::Warn);
    assert_eq!(r.summary, "Response time: 225ms (warn at 200ms)");
}

#[test]
fn response_time_without_limits_reports_time_at_ok() {
    let r = check_response_time(50, Limits::Unbounded);
    assert_eq!(r.state, State::Okay);
    assert_eq!(r.summary, "Response time: 50ms");
}

#[test]
fn status_classes_map_to_severities() {
    let r = check_status(200, HttpVersion::Http11, OnRedirect::Follow);
    assert_eq!(r.state, State::Okay);
    assert_eq!(r.summary, "HTTP/1.1 200");
    let r = check_status(404, HttpVersion::Http11, OnRedirect::Follow);
    assert_eq!(r.state, State::Warn);
    assert_eq!(r.summary, "HTTP/1.1 404");
    let r = check_status(503, HttpVersion::Http2, OnRedirect::Follow);
    assert_eq!(r.state, State::Crit);
    assert_eq!(r.summary, "HTTP/2 503");
}

#[test]
fn redirect_status_follows_configured_policy() {
    let r = check_status(302, HttpVersion::Http11, OnRedirect::Okay);
    assert_eq!(r.state, State::Okay);
    let r = check_status(302, HttpVersion::Http11, OnRedirect::Warning);
    assert_eq!(r.state, State::Warn);
    let r = check_status(302, HttpVersion::Http11, OnRedirect::Critical);
    assert_eq!(r.state, State::Crit);
    let r = check_status(302, HttpVersion::Http11, OnRedirect::Sticky);
    assert_eq!(r.state, State::Okay);
    let r = check_status(302, HttpVersion::Http11, OnRedirect::Stickyport);
    assert_eq!(r.state, State::Okay);
}

#[test]
fn absent_age_emits_no_result() {
    assert!(check_document_age(&None, Limits::WarnCrit(1800, 3600)).is_none());
}

#[test]
fn present_age_is_held_against_limits() {
    let r = check_document_age(&Some(3600), Limits::WarnCrit(1800, 3600)).unwrap();
    assert_eq!(r.state, State::Crit);
    assert_eq!(r.summary, "Document age: 3600s (crit at 3600s)");
    let r = check_document_age(&Some(2000), Limits::WarnCrit(1800, 3600)).unwrap();
    assert_eq!(r.state, State::Warn);
    assert_eq!(r.summary, "Document age: 2000s (warn at 1800s)");
    let r = check_document_age(&Some(60), Limits::Unbounded).unwrap();
    assert_eq!(r.state, State::Okay);
    assert_eq!(r.summary, "Document age: 60s");
}

#[test]
fn success_without_age_yields_three_results() {
    let results = collect_checks(RequestOutcome::Success(plain_response()), 10, plain_config());
    assert_eq!(results.len(), 3);
    assert_eq!(results[0].state, State::Okay);
    assert_eq!(results[1].state, State::Okay);
    assert_eq!(results[2].state, State::Okay);
}

#[test]
fn success_with_age_yields_four_results() {
    let mut response = plain_response();
    response.age_seconds = Some(120);
    let results = collect_checks(RequestOutcome::Success(response), 10, plain_config());
    assert_eq!(results.len(), 4);
    assert_eq!(results[3].state, State::Okay);
    assert_eq!(results[3].summary, "Document age: 120s");
}

#[test]
fn short_body_scenario_warns_on_body_only() {
    let response = HttpResponse {
        status: 200,
        version: HttpVersion::Http11,
        body: Some(vec![b'x'; 512]),
        age_seconds: None,
    };
    let config = CheckConfig {
        onredirect: OnRedirect::Follow,
        page_size: Bounds::Lower(1024),
        response_time_levels: Limits::Warn(200),
        document_age_levels: Limits::Unbounded,
    };
    let results = collect_checks(RequestOutcome::Success(response), 50, config);
    assert_eq!(results.len(), 3);
    assert_eq!(results[0].state, State::Okay);
    assert_eq!(results[0].summary, "HTTP/1.1 200");
    assert_eq!(results[1].state, State::Warn);
    assert_eq!(results[1].summary, "Page size: 512 bytes (warn below 1024 bytes)");
    assert_eq!(results[2].state, State::Okay);
    assert_eq!(results[2].summary, "Response time: 50ms");
}

#[test]
fn evaluation_is_idempotent() {
    let response = HttpResponse {
        status: 301,
        version: HttpVersion::Http10,
        body: Some(vec![9u8; 33]),
        age_seconds: Some(500),
    };
    let config = CheckConfig {
        onredirect: OnRedirect::Warning,
        page_size: Bounds::LowerUpper(10, 20),
        response_time_levels: Limits::WarnCrit(100, 400),
        document_age_levels: Limits::Warn(450),
    };
    let first = collect_checks(
        RequestOutcome::Success(response.clone()),
        150,
        config,
    );
    let second = collect_checks(RequestOutcome::Success(response), 150, config);
    assert_eq!(first, second);
}
