//! The outcome of a relayed request and the wording of its failures.

use vstd::prelude::*;
use vstd::string::StringExecFns;
use crate::text::{
    decimal, decimal_value, lemma_decimal_digits, lemma_decimal_reads_back, push_decimal,
};

verus! {

/// Why a relayed request failed.
#[derive(Clone, Debug, PartialEq, Eq)]
pub enum RelayFailure {
    /// The request did not complete within the time allowed.
    Timeout,
    /// The transport could not complete the request; holds its description.
    Transport(String),
    /// The remote endpoint answered with a status outside the success range.
    Status { code: u16, body: String },
}

/// A failure as plain values.
pub ghost enum FailureView {
    Timeout,
    Transport(Seq<char>),
    Status { code: u16, body: Seq<char> },
}

impl View for RelayFailure {
    type V = FailureView;

    open spec fn view(&self) -> FailureView {
        match self {
            RelayFailure::Timeout => FailureView::Timeout,
            RelayFailure::Transport(text) => FailureView::Transport(text@),
            RelayFailure::Status { code, body } => FailureView::Status { code: *code, body: body@ },
        }
    }
}

/// What the caller of a relayed request gets back: the response body, or the
/// reason for the failure.
#[derive(Clone, Debug, PartialEq, Eq)]
pub enum RelayOutcome {
    Success(String),
    Failure(RelayFailure),
}

/// An outcome as plain values.
pub ghost enum OutcomeView {
    Success(Seq<char>),
    Failure(FailureView),
}

impl View for RelayOutcome {
    type V = OutcomeView;

    open spec fn view(&self) -> OutcomeView {
        match self {
            RelayOutcome::Success(body) => OutcomeView::Success(body@),
            RelayOutcome::Failure(failure) => OutcomeView::Failure(failure@),
        }
    }
}

/// The message of every timeout.
pub open spec fn timeout_message() -> Seq<char> {
    "Request timeout after 30 seconds"@
}

/// The message for a response with a status outside the success range:
/// `HTTP `, the status in decimal, a colon and a space, then the body as
/// received.
pub open spec fn status_message(code: u16, body: Seq<char>) -> Seq<char> {
    "HTTP "@ + decimal(code as nat) + ": "@ + body
}

/// The message under which a failure reaches the caller.
pub open spec fn failure_message(failure: FailureView) -> Seq<char> {
    match failure {
        FailureView::Timeout => timeout_message(),
        FailureView::Transport(text) => text,
        FailureView::Status { code, body } => status_message(code, body),
    }
}

/// The outcome on a channel of two strings: the body on the success side, the
/// failure's message on the error side.
pub open spec fn flattened(outcome: OutcomeView) -> Result<Seq<char>, Seq<char>> {
    match outcome {
        OutcomeView::Success(body) => Ok(body),
        OutcomeView::Failure(failure) => Err(failure_message(failure)),
    }
}

/// The message for a refused response holds the status and the body exactly:
/// the status stands in decimal right after `HTTP `, reads back as the same
/// number, and the body closes the message unchanged.
pub proof fn lemma_status_message_parts(code: u16, body: Seq<char>)
    ensures
        ({
            let m = status_message(code, body);
            let d = decimal(code as nat);
            let n = d.len() as int;
            &&& m.len() == 5 + n + 2 + body.len()
            &&& m.subrange(0, 5) == "HTTP "@
            &&& m.subrange(5, 5 + n) == d
            &&& decimal_value(d) == code
            &&& m.subrange(5 + n, 7 + n) == ": "@
            &&& m.subrange(m.len() - body.len(), m.len() as int) == body
        }),
{
    reveal_strlit("HTTP ");
    reveal_strlit(": ");
    lemma_decimal_reads_back(code as nat);
    let m = status_message(code, body);
    let d = decimal(code as nat);
    let n = d.len() as int;
    assert(m.len() == 5 + n + 2 + body.len());
    assert(m.subrange(0, 5) =~= "HTTP "@);
    assert(m.subrange(5, 5 + n) =~= d);
    assert(m.subrange(5 + n, 7 + n) =~= ": "@);
    assert(m.subrange(m.len() - body.len(), m.len() as int) =~= body);
}

/// The message for a refused response determines both the status and the
/// body: responses that differ in either differ in their message.
pub proof fn lemma_status_message_injective(c1: u16, b1: Seq<char>, c2: u16, b2: Seq<char>)
    requires
        status_message(c1, b1) == status_message(c2, b2),
    ensures
        c1 == c2,
        b1 == b2,
{
    reveal_strlit("HTTP ");
    reveal_strlit(": ");
    lemma_status_message_parts(c1, b1);
    lemma_status_message_parts(c2, b2);
    let m = status_message(c1, b1);
    let d1 = decimal(c1 as nat);
    let d2 = decimal(c2 as nat);
    let n1 = d1.len() as int;
    let n2 = d2.len() as int;
    assert(m.subrange(5 + n1, 7 + n1)[0] == ':');
    assert(m.subrange(5 + n2, 7 + n2)[0] == ':');
    if n1 < n2 {
        lemma_decimal_digits(c2 as nat, n1);
        assert(m.subrange(5, 5 + n2)[n1] == d2[n1]);
        assert(false);
    }
    if n2 < n1 {
        lemma_decimal_digits(c1 as nat, n2);
        assert(m.subrange(5, 5 + n1)[n2] == d1[n2]);
        assert(false);
    }
    assert(d1 == d2);
    assert(b1.len() == b2.len());
}

impl RelayFailure {
    /// The text under which the failure reaches the caller: a fixed sentence
    /// for a timeout, the transport's own description for a transport failure,
    /// and status and body for a refused response.
    pub fn message(&self) -> (m: String)
        ensures
            m@ == failure_message(self@),
    {
        match self {
            RelayFailure::Timeout => "Request timeout after 30 seconds".to_string(),
            RelayFailure::Transport(text) => text.clone(),
            RelayFailure::Status { code, body } => {
                let mut m = "HTTP ".to_string();
                push_decimal(&mut m, *code);
                m.append(": ");
                m.append(body.as_str());
                m
            },
        }
    }
}

impl RelayOutcome {
    /// Tells whether the request succeeded.
    pub fn is_success(&self) -> (r: bool)
        ensures
            r == (self@ is Success),
    {
        match self {
            RelayOutcome::Success(_) => true,
            RelayOutcome::Failure(_) => false,
        }
    }

    /// Flattens the outcome to strings: `Ok` with the body, or `Err` with the
    /// failure's message.
    pub fn into_result(self) -> (r: Result<String, String>)
        ensures
            match r {
                Ok(body) => flattened(self@) == Ok::<Seq<char>, Seq<char>>(body@),
                Err(message) => flattened(self@) == Err::<Seq<char>, Seq<char>>(message@),
            },
    {
        match self {
            RelayOutcome::Success(body) => Ok(body),
            RelayOutcome::Failure(failure) => Err(failure.message()),
        }
    }
}

} // verus!
