//! Response-status handling: which statuses allow a parse attempt, which
//! failure each other status maps to, the user-facing message for each
//! failure, and the process exit code for each outcome.

use vstd::prelude::*;

verus! {

/// The ways a run of the client can fail; none is recoverable.
#[derive(Clone, Copy, Debug, PartialEq, Eq, Structural)]
pub enum FailureKind {
    /// The response body was not valid JSON or did not match the expected shape.
    MalformedResponse,
    /// The service rejected the credentials.
    Unauthorized,
    /// The service answered with any other non-success status.
    RequestFailed,
}

/// What the caller must do with a response of a given status.
#[derive(Clone, Copy, Debug, PartialEq, Eq, Structural)]
pub enum StatusDecision {
    /// Status 200: the body is handed to the parser.
    ParseBody,
    /// Any other status: fail without looking at the body.
    Reject(FailureKind),
}

/// The outcome of one request/parse/render cycle.
#[derive(Clone, Copy, Debug, PartialEq, Eq, Structural)]
pub enum RunOutcome {
    /// Tracks were rendered (possibly zero of them).
    Rendered,
    Failed(FailureKind),
}

/// The decision a given HTTP status dictates: 200 means parse the body,
/// 401 means invalid credentials, anything else is a generic request failure.
pub open spec fn spec_classify(status: u16) -> StatusDecision {
    if status == 200 {
        StatusDecision::ParseBody
    } else if status == 401 {
        StatusDecision::Reject(FailureKind::Unauthorized)
    } else {
        StatusDecision::Reject(FailureKind::RequestFailed)
    }
}

/// Decide from the response status alone whether the body may be parsed.
pub fn classify_status(status: u16) -> (d: StatusDecision)
    ensures
        d == spec_classify(status),
{
    if status == 200 {
        StatusDecision::ParseBody
    } else if status == 401 {
        StatusDecision::Reject(FailureKind::Unauthorized)
    } else {
        StatusDecision::Reject(FailureKind::RequestFailed)
    }
}

/// The message shown to the user for each failure.
pub open spec fn spec_failure_message(k: FailureKind) -> Seq<char> {
    match k {
        FailureKind::MalformedResponse => "Error while parsing the response"@,
        FailureKind::Unauthorized => "Invalid API key"@,
        FailureKind::RequestFailed => "Error while making the request"@,
    }
}

/// Produce the user-facing message for a failure.
pub fn failure_message(k: &FailureKind) -> (s: String)
    ensures
        s@ == spec_failure_message(*k),
{
    match k {
        FailureKind::MalformedResponse => String::from_str("Error while parsing the response"),
        FailureKind::Unauthorized => String::from_str("Invalid API key"),
        FailureKind::RequestFailed => String::from_str("Error while making the request"),
    }
}

/// The process exits 0 exactly when tracks were rendered; every failure
/// exits 1.
pub fn exit_code(outcome: &RunOutcome) -> (c: i32)
    ensures
        c == 0 <==> *outcome is Rendered,
        c == 0 || c == 1,
{
    match outcome {
        RunOutcome::Rendered => 0,
        RunOutcome::Failed(_) => 1,
    }
}

} // verus!
