//! The supervisor's failure taxonomy and its fixed reaction to each
//! kind. The loop around it performs the waiting and the teardown; which
//! of those is due is decided here.

use vstd::prelude::*;

verus! {

/// Every failure the loop can meet, by what it means, not where it
/// happened.
#[derive(Clone, Copy, PartialEq, Eq, Structural, Debug)]
pub enum FailureKind {
    /// The service is not present. Expected; never a fault.
    Discovery,
    /// The connection is gone: refused, reset, timed out, or the auth
    /// was rejected.
    Connection,
    /// A well-formed negative answer, e.g. no ready check in progress.
    Application,
    /// A side effect failed after a valid trigger.
    Effect,
}

/// What the loop must do about a failure.
#[derive(Clone, Copy, PartialEq, Eq, Structural, Debug)]
pub enum Reaction {
    /// Sleep the fixed interval, then resolve credentials again.
    RetryDiscovery,
    /// Destroy the session and all state derived from it, then rediscover.
    TearDownSession,
    /// Treat as "no data this round" and keep the session.
    KeepSession,
    /// Report to the operator; the trigger stays handled either way.
    ReportOnly,
}

/// The fixed mapping from failure kind to reaction.
pub open spec fn spec_reaction(k: FailureKind) -> Reaction {
    match k {
        FailureKind::Discovery => Reaction::RetryDiscovery,
        FailureKind::Connection => Reaction::TearDownSession,
        FailureKind::Application => Reaction::KeepSession,
        FailureKind::Effect => Reaction::ReportOnly,
    }
}

/// The failure a non-success HTTP status stands for: a rejected
/// authorization means the session is stale and must fall; any other
/// well-formed refusal is a negative answer, not a fault.
pub open spec fn spec_status_failure(code: u16) -> FailureKind {
    if code == 401 || code == 403 {
        FailureKind::Connection
    } else {
        FailureKind::Application
    }
}

/// Classifies a non-success HTTP status code.
pub fn classify_status(code: u16) -> (k: FailureKind)
    ensures
        k == spec_status_failure(code),
{
    if code == 401 || code == 403 {
        FailureKind::Connection
    } else {
        FailureKind::Application
    }
}

/// Decides the loop's reaction to a failure. Discovery and connection
/// failures never escape the loop; only an effect failure is reported.
pub fn supervisor_reaction(k: FailureKind) -> (r: Reaction)
    ensures
        r == spec_reaction(k),
{
    match k {
        FailureKind::Discovery => Reaction::RetryDiscovery,
        FailureKind::Connection => Reaction::TearDownSession,
        FailureKind::Application => Reaction::KeepSession,
        FailureKind::Effect => Reaction::ReportOnly,
    }
}

} // verus!
