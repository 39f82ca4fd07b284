use vstd::prelude::*;
use crate::text::{append_decimal, decimal};

verus! {

/// What the answer area shows.
#[derive(Debug, PartialEq, Eq)]
pub enum AnswerState {
    /// Nothing asked yet: a placeholder text.
    Idle(String),
    /// A request is on its way.
    Loading,
    /// The answer text and the label of the backend that produced it.
    Success(String, String),
    /// A message for the user.
    Failed(String),
}

/// `AnswerState` with its texts as character sequences.
pub enum AnswerView {
    Idle(Seq<char>),
    Loading,
    Success(Seq<char>, Seq<char>),
    Failed(Seq<char>),
}

impl View for AnswerState {
    type V = AnswerView;

    open spec fn view(&self) -> AnswerView {
        match self {
            AnswerState::Idle(p) => AnswerView::Idle(p@),
            AnswerState::Loading => AnswerView::Loading,
            AnswerState::Success(a, b) => AnswerView::Success(a@, b@),
            AnswerState::Failed(m) => AnswerView::Failed(m@),
        }
    }
}

impl AnswerView {
    /// A request has been resolved one way or the other.
    pub open spec fn is_terminal(self) -> bool {
        self is Success || self is Failed
    }
}

/// The decoded body of a reply with a success status.
#[derive(Debug)]
pub struct AnswerBody {
    pub answer: String,
    pub backend: Option<String>,
}

/// The decoded body of a reply with any other status.
#[derive(Debug)]
pub struct ErrorBody {
    pub error: String,
    pub details: Option<String>,
}

/// How one dispatched request ended, as the transport and the body
/// decoder saw it. The texts in the failure variants describe the cause.
#[derive(Debug)]
pub enum Reply {
    /// No response reached the client.
    TransportFailed(String),
    /// A success status with a body that decoded.
    Answer(AnswerBody),
    /// A success status with a body that did not decode.
    AnswerUndecodable(String),
    /// Another status with an error body that decoded.
    Error(u16, ErrorBody),
    /// Another status with a body that did not decode.
    ErrorUndecodable(u16, String),
}

/// `Reply` with its texts as character sequences.
pub enum ReplyView {
    TransportFailed(Seq<char>),
    Answer(Seq<char>, Option<Seq<char>>),
    AnswerUndecodable(Seq<char>),
    Error(u16, Seq<char>, Option<Seq<char>>),
    ErrorUndecodable(u16, Seq<char>),
}

/// The texts of an optional string.
pub open spec fn opt_view(o: Option<String>) -> Option<Seq<char>> {
    match o {
        Some(s) => Some(s@),
        None => None,
    }
}

impl View for Reply {
    type V = ReplyView;

    open spec fn view(&self) -> ReplyView {
        match self {
            Reply::TransportFailed(m) => ReplyView::TransportFailed(m@),
            Reply::Answer(b) => ReplyView::Answer(b.answer@, opt_view(b.backend)),
            Reply::AnswerUndecodable(m) => ReplyView::AnswerUndecodable(m@),
            Reply::Error(s, b) => ReplyView::Error(*s, b.error@, opt_view(b.details)),
            Reply::ErrorUndecodable(s, m) => ReplyView::ErrorUndecodable(*s, m@),
        }
    }
}

/// The backend label shown when the reply names none.
pub open spec fn unknown_backend() -> Seq<char> {
    "unknown"@
}

/// The failure shown when no response arrived.
pub open spec fn connection_message(cause: Seq<char>) -> Seq<char> {
    "Connection error: "@ + cause + ". Make sure the API server is running."@
}

/// The failure shown when a success body does not decode.
pub open spec fn parse_failure_message(cause: Seq<char>) -> Seq<char> {
    "Failed to parse response: "@ + cause
}

/// The failure shown for a decoded error body: the error, then the
/// details after a colon when there are any.
pub open spec fn server_error_message(error: Seq<char>, details: Option<Seq<char>>) -> Seq<char> {
    match details {
        Some(d) => error + ": "@ + d,
        None => error,
    }
}

/// The failure shown when an error body does not decode.
pub open spec fn unreadable_error_message(status: u16, cause: Seq<char>) -> Seq<char> {
    "Server error ("@ + decimal(status as nat) + "): "@ + cause
}

/// The answer area once `r` has come back.
pub open spec fn settled(r: ReplyView) -> AnswerView {
    match r {
        ReplyView::TransportFailed(c) => AnswerView::Failed(connection_message(c)),
        ReplyView::Answer(a, b) => AnswerView::Success(
            a,
            match b {
                Some(l) => l,
                None => unknown_backend(),
            },
        ),
        ReplyView::AnswerUndecodable(c) => AnswerView::Failed(parse_failure_message(c)),
        ReplyView::Error(_, e, d) => AnswerView::Failed(server_error_message(e, d)),
        ReplyView::ErrorUndecodable(s, c) => AnswerView::Failed(unreadable_error_message(s, c)),
    }
}

/// A status in the success class, 200 to 299.
pub open spec fn is_success_status(status: u16) -> bool {
    200 <= status <= 299
}

/// Whether a response with `status` carries an answer body (else an error body).
pub fn expects_answer(status: u16) -> (r: bool)
    ensures
        r == is_success_status(status),
{
    200 <= status && status <= 299
}

/// Turns what came back from one request into what the answer area shows.
pub fn settle(reply: Reply) -> (r: AnswerState)
    ensures
        r@ == settled(reply@),
        r@.is_terminal(),
{
    match reply {
        Reply::TransportFailed(cause) => {
            let mut m = String::from_str("Connection error: ");
            m.append(cause.as_str());
            m.append(". Make sure the API server is running.");
            AnswerState::Failed(m)
        },
        Reply::Answer(body) => {
            let label = match body.backend {
                Some(l) => l,
                None => String::from_str("unknown"),
            };
            AnswerState::Success(body.answer, label)
        },
        Reply::AnswerUndecodable(cause) => {
            let mut m = String::from_str("Failed to parse response: ");
            m.append(cause.as_str());
            AnswerState::Failed(m)
        },
        Reply::Error(_, body) => {
            let mut m = body.error;
            match body.details {
                Some(d) => {
                    m.append(": ");
                    m.append(d.as_str());
                },
                None => {},
            }
            AnswerState::Failed(m)
        },
        Reply::ErrorUndecodable(status, cause) => {
            let mut m = String::from_str("Server error (");
            append_decimal(&mut m, status);
            m.append("): ");
            m.append(cause.as_str());
            AnswerState::Failed(m)
        },
    }
}

} // verus!
