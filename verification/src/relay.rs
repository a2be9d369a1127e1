//! The relay itself, without its transport: what is sent for a request, and
//! what the caller gets for whatever the transport reports.

use vstd::prelude::*;
use crate::headers::{assemble_headers, assembled, header_views, Header};
use crate::outcome::{
    flattened, status_message, timeout_message, FailureView, OutcomeView, RelayFailure,
    RelayOutcome,
};

verus! {

/// Seconds allowed for a whole request: connecting, sending, and reading the
/// response to its end.
pub const REQUEST_TIMEOUT_SECS: u64 = 30;

/// A request as the caller hands it in.
#[derive(Clone, Debug, PartialEq, Eq)]
pub struct RelayRequest {
    pub target_url: String,
    pub body: String,
    pub headers: Vec<Header>,
}

/// The method of an outgoing request.
#[derive(Clone, Copy, Debug, PartialEq, Eq)]
pub enum Method {
    Post,
}

/// What the transport is asked to send.
#[derive(Clone, Debug, PartialEq, Eq)]
pub struct OutgoingRequest {
    pub method: Method,
    pub url: String,
    pub timeout_secs: u64,
    pub headers: Vec<Header>,
    pub body: String,
}

/// A response that the transport received in full.
#[derive(Clone, Debug, PartialEq, Eq)]
pub struct RelayResponse {
    pub status: u16,
    pub body: String,
}

/// A request that the transport could not complete: no response arrived, or
/// its body could not be read to the end.
#[derive(Clone, Debug, PartialEq, Eq)]
pub struct TransportError {
    pub timed_out: bool,
    pub description: String,
}

/// The status denotes success.
pub open spec fn is_success_status(status: u16) -> bool {
    200 <= status <= 299
}

/// The outcome for a response received in full.
pub open spec fn outcome_of_response(status: u16, body: Seq<char>) -> OutcomeView {
    if is_success_status(status) {
        OutcomeView::Success(body)
    } else {
        OutcomeView::Failure(FailureView::Status { code: status, body })
    }
}

/// The outcome for a request that the transport could not complete.
pub open spec fn outcome_of_error(timed_out: bool, description: Seq<char>) -> OutcomeView {
    if timed_out {
        OutcomeView::Failure(FailureView::Timeout)
    } else {
        OutcomeView::Failure(FailureView::Transport(description))
    }
}

/// The outcome for whatever the transport reports.
pub open spec fn outcome_of(report: Result<RelayResponse, TransportError>) -> OutcomeView {
    match report {
        Ok(response) => outcome_of_response(response.status, response.body@),
        Err(error) => outcome_of_error(error.timed_out, error.description@),
    }
}

/// A response with a success status gives its body back unchanged.
pub proof fn lemma_success_returns_body(status: u16, body: Seq<char>)
    requires
        is_success_status(status),
    ensures
        flattened(outcome_of_response(status, body)) == Ok::<Seq<char>, Seq<char>>(body),
{
}

/// A response with any other status fails with the message that holds the
/// status and the body.
pub proof fn lemma_refused_status_reported(status: u16, body: Seq<char>)
    requires
        !is_success_status(status),
    ensures
        flattened(outcome_of_response(status, body)) == Err::<Seq<char>, Seq<char>>(
            status_message(status, body),
        ),
{
}

/// A timeout fails with the fixed message, whatever the transport says of it.
pub proof fn lemma_timeout_message_fixed(description: Seq<char>)
    ensures
        flattened(outcome_of_error(true, description)) == Err::<Seq<char>, Seq<char>>(
            timeout_message(),
        ),
{
}

/// Any other transport failure is passed on in the transport's own words and
/// is never classified as a timeout.
pub proof fn lemma_transport_failure_verbatim(description: Seq<char>)
    ensures
        outcome_of_error(false, description) == OutcomeView::Failure(
            FailureView::Transport(description),
        ),
        flattened(outcome_of_error(false, description)) == Err::<Seq<char>, Seq<char>>(
            description,
        ),
{
}

/// Tells whether a status denotes success.
pub fn status_is_success(status: u16) -> (r: bool)
    ensures
        r == is_success_status(status),
{
    200 <= status && status <= 299
}

/// Plans the outgoing request: a POST to the caller's URL with the caller's
/// body, the fixed time limit, and the caller's headers followed by the two
/// that the relay sets itself.
pub fn prepare(request: RelayRequest) -> (out: OutgoingRequest)
    ensures
        out.method == Method::Post,
        out.url@ == request.target_url@,
        out.body@ == request.body@,
        out.timeout_secs == REQUEST_TIMEOUT_SECS,
        header_views(out.headers@) == assembled(header_views(request.headers@)),
{
    let headers = assemble_headers(&request.headers);
    OutgoingRequest {
        method: Method::Post,
        url: request.target_url,
        timeout_secs: REQUEST_TIMEOUT_SECS,
        headers,
        body: request.body,
    }
}

/// Classifies a response received in full: its body on a success status, a
/// status failure on any other.
pub fn classify_response(response: RelayResponse) -> (outcome: RelayOutcome)
    ensures
        outcome@ == outcome_of_response(response.status, response.body@),
{
    if status_is_success(response.status) {
        RelayOutcome::Success(response.body)
    } else {
        RelayOutcome::Failure(RelayFailure::Status { code: response.status, body: response.body })
    }
}

/// Classifies a request that the transport could not complete: a timeout, or
/// a transport failure with the transport's description.
pub fn classify_error(error: TransportError) -> (outcome: RelayOutcome)
    ensures
        outcome@ == outcome_of_error(error.timed_out, error.description@),
{
    if error.timed_out {
        RelayOutcome::Failure(RelayFailure::Timeout)
    } else {
        RelayOutcome::Failure(RelayFailure::Transport(error.description))
    }
}

/// Turns the transport's report on one request into that request's outcome.
pub fn conclude(report: Result<RelayResponse, TransportError>) -> (outcome: RelayOutcome)
    ensures
        outcome@ == outcome_of(report),
{
    match report {
        Ok(response) => classify_response(response),
        Err(error) => classify_error(error),
    }
}

} // verus!
