use etcd_cfn_signal::health::{
    classify_response, health_from_field, health_url, HealthPoller, HealthStatus, PollAction,
    PollPhase, UnhealthyReason, POLL_INTERVAL_MILLIS,
};

fn run(answers: &[(u16, &str)]) -> HealthPoller {
    let mut p = HealthPoller::new();
    for (status, body) in answers {
        assert_eq!(p.next_action(), PollAction::SleepThenCheck { millis: 1000 });
        p.record(&classify_response(*status, body));
    }
    p
}

#[test]
fn healthy_body_is_healthy() {
    assert_eq!(classify_response(200, "{\"health\":\"true\"}"), HealthStatus::Healthy);
}

#[test]
fn healthy_answer_ends_wait_on_that_attempt() {
    let p = run(&[(200, "{\"health\":\"true\"}")]);
    assert_eq!(p.phase, PollPhase::Healthy);
    assert_eq!(p.attempts, 1);
    assert_eq!(p.next_action(), PollAction::ReportHealthy);
}

#[test]
fn false_health_polls_again() {
    assert_eq!(
        classify_response(200, "{\"health\":\"false\"}"),
        HealthStatus::Unhealthy(UnhealthyReason::HealthIs("false".to_string()))
    );
    let p = run(&[(200, "{\"health\":\"false\"}")]);
    assert_eq!(p.phase, PollPhase::Polling);
    assert_eq!(p.next_action(), PollAction::SleepThenCheck { millis: POLL_INTERVAL_MILLIS });
}

#[test]
fn malformed_json_polls_again() {
    assert_eq!(
        classify_response(200, "{\"health\":"),
        HealthStatus::Unhealthy(UnhealthyReason::UnexpectedBody)
    );
    let p = run(&[(200, "not json at all")]);
    assert_eq!(p.phase, PollPhase::Polling);
}

#[test]
fn missing_health_field_polls_again() {
    assert_eq!(
        classify_response(200, "{\"status\":\"true\"}"),
        HealthStatus::Unhealthy(UnhealthyReason::UnexpectedBody)
    );
    assert_eq!(
        classify_response(200, "{\"health\":true}"),
        HealthStatus::Unhealthy(UnhealthyReason::UnexpectedBody)
    );
}

#[test]
fn non_200_status_polls_again() {
    assert_eq!(
        classify_response(503, "{\"health\":\"true\"}"),
        HealthStatus::Unhealthy(UnhealthyReason::HttpStatus(503))
    );
    let p = run(&[(503, "")]);
    assert_eq!(p.phase, PollPhase::Polling);
    assert_eq!(p.attempts, 1);
}

#[test]
fn transport_failures_never_end_wait() {
    let mut p = HealthPoller::new();
    for _ in 0..1000 {
        p.record(&HealthStatus::Unreachable("connection refused".to_string()));
        assert_eq!(p.next_action(), PollAction::SleepThenCheck { millis: 1000 });
    }
    assert_eq!(p.phase, PollPhase::Polling);
    assert_eq!(p.attempts, 1000);
}

#[test]
fn two_503_then_healthy_takes_three_attempts() {
    let p = run(&[(503, ""), (503, ""), (200, "{\"health\":\"true\"}")]);
    assert_eq!(p.phase, PollPhase::Healthy);
    assert_eq!(p.attempts, 3);
}

#[test]
fn attempts_saturate() {
    let mut p = HealthPoller { phase: PollPhase::Polling, attempts: u64::MAX };
    p.record(&HealthStatus::Unhealthy(UnhealthyReason::HttpStatus(500)));
    assert_eq!(p.attempts, u64::MAX);
}

#[test]
fn record_after_end_changes_nothing() {
    let mut p = run(&[(200, "{\"health\":\"true\"}")]);
    p.record(&HealthStatus::Unhealthy(UnhealthyReason::HttpStatus(500)));
    assert_eq!(p.phase, PollPhase::Healthy);
    assert_eq!(p.attempts, 1);
}

#[test]
fn client_failure_is_fatal() {
    let mut p = HealthPoller::new();
    p.client_failed();
    assert_eq!(p.phase, PollPhase::FatalTransportError);
    assert_eq!(p.next_action(), PollAction::ReportFatal);
}

#[test]
fn field_readings() {
    assert_eq!(health_from_field(Some("true".to_string())), HealthStatus::Healthy);
    assert_eq!(
        health_from_field(Some("TRUE".to_string())),
        HealthStatus::Unhealthy(UnhealthyReason::HealthIs("TRUE".to_string()))
    );
    assert_eq!(health_from_field(None), HealthStatus::Unhealthy(UnhealthyReason::UnexpectedBody));
}

#[test]
fn health_url_appends_path() {
    assert_eq!(health_url("https://10.0.0.1:2379"), "https://10.0.0.1:2379/health");
}
