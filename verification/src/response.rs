//! What comes back from a call to the tracker, and what the caller is told.
//!
//! Two kinds of failure are kept apart from beginning to end. A call that
//! never completed yields no response at all. A call that completed and was
//! turned down yields the tracker's own error, untouched.

use crate::natural::number_view;
use crate::natural::Natural;
use vstd::prelude::*;

verus! {

/// Why the tracker turned a request down.
#[derive(Clone, Copy, Debug, PartialEq, Eq)]
pub enum MetricsError {
    AttributePaused,
    FailedExecution,
    FailedGettingValue,
    InvalidId,
    Unauthorized,
}

/// The tracker's answer: done, perhaps with the number of the attribute, or
/// turned down.
#[allow(non_camel_case_types)]
#[derive(Debug, PartialEq, Eq)]
pub enum MetricsResponse {
    ok(Option<Natural>),
    err(MetricsError),
}

/// What a `MetricsResponse` is, in plain values.
#[allow(non_camel_case_types)]
pub enum MetricsResponseView {
    ok(Option<nat>),
    err(MetricsError),
}

impl View for MetricsResponse {
    type V = MetricsResponseView;

    open spec fn view(&self) -> MetricsResponseView {
        match *self {
            MetricsResponse::ok(number) => MetricsResponseView::ok(number_view(number)),
            MetricsResponse::err(error) => MetricsResponseView::err(error),
        }
    }
}

impl Clone for MetricsResponse {
    fn clone(&self) -> (copy: Self)
        ensures
            copy@ == self@,
    {
        match self {
            MetricsResponse::ok(Some(number)) => MetricsResponse::ok(Some(number.clone())),
            MetricsResponse::ok(None) => MetricsResponse::ok(None),
            MetricsResponse::err(error) => MetricsResponse::err(*error),
        }
    }
}

/// How a call ended: with the tracker's reply, or with the host's word that
/// the call could not be completed.
#[derive(Debug, PartialEq, Eq)]
pub enum CallOutcome {
    /// The reply arrived and was a `MetricsResponse`.
    Reply(MetricsResponse),
    /// The target was out of reach, refused, trapped, or answered with
    /// something else than a `MetricsResponse`. The text says which.
    TransportFailure(String),
}

/// What the caller of a tracking call gets, and what goes to the log.
#[derive(Debug, PartialEq, Eq)]
pub struct TrackReport {
    /// The tracker's reply, where there was one.
    pub response: Option<MetricsResponse>,
    /// The detail of a transport failure, for the log and nothing else.
    pub diagnostic: Option<String>,
}

/// The reply in `outcome`, where it holds one.
pub open spec fn reply_of(outcome: CallOutcome) -> Option<MetricsResponse> {
    match outcome {
        CallOutcome::Reply(response) => Some(response),
        CallOutcome::TransportFailure(_) => None,
    }
}

/// The failure detail in `outcome`, where it holds one.
pub open spec fn failure_of(outcome: CallOutcome) -> Option<String> {
    match outcome {
        CallOutcome::Reply(_) => None,
        CallOutcome::TransportFailure(detail) => Some(detail),
    }
}

/// Reads the outcome of a call. A reply is passed on as it came, error code
/// and all; a transport failure gives no response and its detail as the
/// diagnostic.
pub fn decode(outcome: CallOutcome) -> (report: TrackReport)
    ensures
        report.response == reply_of(outcome),
        report.diagnostic == failure_of(outcome),
{
    match outcome {
        CallOutcome::Reply(response) => TrackReport { response: Some(response), diagnostic: None },
        CallOutcome::TransportFailure(detail) => TrackReport {
            response: None,
            diagnostic: Some(detail),
        },
    }
}

/// A transport failure never yields a response, and a reply always yields
/// itself: the two cannot be taken for one another.
pub proof fn failures_and_replies_are_disjoint(outcome: CallOutcome)
    ensures
        reply_of(outcome) is None <==> outcome is TransportFailure,
        reply_of(outcome) is Some <==> failure_of(outcome) is None,
        forall|response: MetricsResponse|
            reply_of(CallOutcome::Reply(response)) == Some(response),
{
}

} // verus!
