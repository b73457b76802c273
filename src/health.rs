//! Interpretation of the etcd health endpoint and the polling state machine
//! that waits for it to report healthy.
use vstd::prelude::*;
use crate::text::opt_view;

verus! {

/// The path of the health endpoint, appended to the server's base url.
pub const HEALTH_PATH: &'static str = "/health";

/// Milliseconds the poller sleeps before each attempt, the first included.
pub const POLL_INTERVAL_MILLIS: u64 = 1000;

/// What the string field `key` of the JSON object in `text` holds, if `text`
/// parses as JSON and holds such a field.
pub uninterp spec fn json_str_field(text: Seq<char>, key: Seq<char>) -> Option<Seq<char>>;

/// Relies on `serde_json::from_str` (into `serde_json::Value`), `Value::get` and
/// `Value::as_str`: parses `text` and reads the string field named `key`.
#[verifier::external_body]
fn json_str_field_of(text: &str, key: &str) -> (r: Option<String>)
    ensures
        opt_view(r) == json_str_field(text@, key@),
{
    match serde_json::from_str::<serde_json::Value>(text) {
        Ok(v) => v.get(key).and_then(|f| f.as_str()).map(|s| s.to_owned()),
        Err(_) => None,
    }
}

/// Why an answer of the health endpoint does not count as healthy.
#[derive(Debug, PartialEq, Eq)]
pub enum UnhealthyReason {
    /// The endpoint answered with a status other than 200.
    HttpStatus(u16),
    /// The body's `health` field holds this string, which is not `"true"`.
    HealthIs(String),
    /// The body is not JSON, or has no string field `health`.
    UnexpectedBody,
}

/// The outcome of one attempt to read the health endpoint.
#[derive(Debug, PartialEq, Eq)]
pub enum HealthStatus {
    Healthy,
    Unhealthy(UnhealthyReason),
    /// The request itself failed (refused, reset, timed out, TLS failure).
    Unreachable(String),
}

/// `r` is the reading of a 200 answer whose `health` field is `field`.
pub open spec fn status_for_field(r: HealthStatus, field: Option<Seq<char>>) -> bool {
    match field {
        Some(h) => if h == "true"@ {
            r == HealthStatus::Healthy
        } else {
            r matches HealthStatus::Unhealthy(UnhealthyReason::HealthIs(s)) && s@ == h
        },
        None => r == HealthStatus::Unhealthy(UnhealthyReason::UnexpectedBody),
    }
}

/// `r` is the reading of an answer with HTTP status `status` and body `body`.
pub open spec fn classified(r: HealthStatus, status: u16, body: Seq<char>) -> bool {
    if status == 200 {
        status_for_field(r, json_str_field(body, "health"@))
    } else {
        r == HealthStatus::Unhealthy(UnhealthyReason::HttpStatus(status))
    }
}

/// An answer that reports the service healthy: status 200 and a JSON body
/// whose `health` field is the string `"true"`.
pub open spec fn healthy_response(status: u16, body: Seq<char>) -> bool {
    status == 200 && json_str_field(body, "health"@) == Some("true"@)
}

/// Reads the `health` field of a 200 answer, as extracted from its body.
pub fn health_from_field(field: Option<String>) -> (r: HealthStatus)
    ensures
        status_for_field(r, opt_view(field)),
{
    match field {
        Some(h) => {
            let t = "true".to_owned();
            if h == t {
                HealthStatus::Healthy
            } else {
                HealthStatus::Unhealthy(UnhealthyReason::HealthIs(h))
            }
        },
        None => HealthStatus::Unhealthy(UnhealthyReason::UnexpectedBody),
    }
}

/// Reads one answer of the health endpoint. A body that is not JSON, or that
/// lacks the field, is a negative reading, never an error.
pub fn classify_response(status: u16, body: &str) -> (r: HealthStatus)
    ensures
        classified(r, status, body@),
        (r == HealthStatus::Healthy) == healthy_response(status, body@),
{
    if status != 200 {
        return HealthStatus::Unhealthy(UnhealthyReason::HttpStatus(status));
    }
    let field = json_str_field_of(body, "health");
    health_from_field(field)
}

/// The url of the health endpoint of the server at `server_url`.
pub fn health_url(server_url: &str) -> (r: String)
    ensures
        r@ == server_url@ + HEALTH_PATH@,
{
    crate::text::join_str(server_url, HEALTH_PATH)
}

/// Where the wait for a healthy service stands.
#[derive(Debug, Clone, Copy, PartialEq, Eq, Structural)]
pub enum PollPhase {
    /// Still waiting: another attempt follows after the interval.
    Polling,
    /// The service reported healthy; the wait is over.
    Healthy,
    /// The TLS client could not be built; the wait ends in failure.
    FatalTransportError,
}

/// What the loop that drives a [`HealthPoller`] does next.
#[derive(Debug, Clone, Copy, PartialEq, Eq, Structural)]
pub enum PollAction {
    /// Sleep this many milliseconds, then query the health endpoint.
    SleepThenCheck { millis: u64 },
    /// Stop: the service is healthy.
    ReportHealthy,
    /// Stop: the wait failed for good.
    ReportFatal,
}

/// The state of the wait for the health endpoint to report healthy. The wait
/// has no bound on the number of attempts: only a healthy answer or a failure
/// to build the client ends it.
#[derive(Debug, Clone, Copy, PartialEq, Eq, Structural)]
pub struct HealthPoller {
    pub phase: PollPhase,
    /// Attempts recorded so far; it stays at `u64::MAX` once it gets there.
    pub attempts: u64,
}

impl HealthPoller {
    /// The state after recording the reading `status` of one attempt.
    pub open spec fn after(self, status: HealthStatus) -> HealthPoller {
        match self.phase {
            PollPhase::Polling => HealthPoller {
                phase: if status == HealthStatus::Healthy {
                    PollPhase::Healthy
                } else {
                    PollPhase::Polling
                },
                attempts: if self.attempts == u64::MAX {
                    u64::MAX
                } else {
                    (self.attempts + 1) as u64
                },
            },
            _ => self,
        }
    }

    /// The action that the state calls for.
    pub open spec fn action_of(self) -> PollAction {
        match self.phase {
            PollPhase::Polling => PollAction::SleepThenCheck { millis: POLL_INTERVAL_MILLIS },
            PollPhase::Healthy => PollAction::ReportHealthy,
            PollPhase::FatalTransportError => PollAction::ReportFatal,
        }
    }

    /// A wait that has made no attempt yet.
    pub fn new() -> (r: HealthPoller)
        ensures
            r.phase == PollPhase::Polling,
            r.attempts == 0,
    {
        HealthPoller { phase: PollPhase::Polling, attempts: 0 }
    }

    /// Records the reading of one attempt. Only a healthy reading ends the
    /// wait; an unhealthy or unreachable one leaves it polling.
    pub fn record(&mut self, status: &HealthStatus)
        ensures
            *final(self) == old(self).after(*status),
    {
        if let PollPhase::Polling = self.phase {
            if let HealthStatus::Healthy = status {
                self.phase = PollPhase::Healthy;
            }
            self.attempts = self.attempts.saturating_add(1);
        }
    }

    /// Records that the TLS client could not be built: a wait that is still
    /// polling ends in failure; one that has ended stays as it is.
    pub fn client_failed(&mut self)
        ensures
            old(self).phase == PollPhase::Polling ==> final(self).phase == PollPhase::FatalTransportError,
            old(self).phase != PollPhase::Polling ==> final(self).phase == old(self).phase,
            final(self).attempts == old(self).attempts,
    {
        if let PollPhase::Polling = self.phase {
            self.phase = PollPhase::FatalTransportError;
        }
    }

    /// What to do next.
    pub fn next_action(&self) -> (r: PollAction)
        ensures
            r == self.action_of(),
    {
        match self.phase {
            PollPhase::Polling => PollAction::SleepThenCheck { millis: POLL_INTERVAL_MILLIS },
            PollPhase::Healthy => PollAction::ReportHealthy,
            PollPhase::FatalTransportError => PollAction::ReportFatal,
        }
    }
}

/// A 200 answer whose JSON body has `health` equal to `"true"` ends a wait
/// that is polling, on that very attempt, and the poller then reports success.
pub proof fn lemma_true_health_ends_wait(p: HealthPoller, body: Seq<char>, r: HealthStatus)
    requires
        p.phase == PollPhase::Polling,
        json_str_field(body, "health"@) == Some("true"@),
        classified(r, 200, body),
    ensures
        p.after(r).phase == PollPhase::Healthy,
        p.after(r).action_of() == PollAction::ReportHealthy,
{
}

/// Any other answer (a status other than 200, a body that is not JSON, one
/// without a string `health` field, or one whose `health` is not `"true"`)
/// leaves the wait polling: another attempt follows after the fixed interval.
pub proof fn lemma_other_answer_polls_again(p: HealthPoller, status: u16, body: Seq<char>, r: HealthStatus)
    requires
        p.phase == PollPhase::Polling,
        !healthy_response(status, body),
        classified(r, status, body),
    ensures
        p.after(r).phase == PollPhase::Polling,
        p.after(r).action_of() == (PollAction::SleepThenCheck { millis: POLL_INTERVAL_MILLIS }),
{
}

/// A failed request never ends the wait: after any run of transport failures
/// the poller is still polling and asks for another attempt.
pub proof fn lemma_transport_failures_poll_forever(p: HealthPoller, errors: Seq<String>)
    requires
        p.phase == PollPhase::Polling,
    ensures
        after_all_unreachable(p, errors).phase == PollPhase::Polling,
        after_all_unreachable(p, errors).action_of() == (PollAction::SleepThenCheck { millis: POLL_INTERVAL_MILLIS }),
    decreases errors.len(),
{
    if errors.len() > 0 {
        lemma_transport_failures_poll_forever(p.after(HealthStatus::Unreachable(errors[0])), errors.drop_first());
    }
}

/// The state after recording one transport failure for each of `errors`, in order.
pub open spec fn after_all_unreachable(p: HealthPoller, errors: Seq<String>) -> HealthPoller
    decreases errors.len(),
{
    if errors.len() == 0 {
        p
    } else {
        after_all_unreachable(p.after(HealthStatus::Unreachable(errors[0])), errors.drop_first())
    }
}

} // verus!
