//! What the engine asks of its driver, and what the driver answers.
//!
//! A run is a dialogue. The engine hands out a [`Request`]; the driver
//! carries it out on the operating system and hands back a [`Reply`]; the
//! engine moves on. A reply that does not answer the request that is out
//! changes nothing.

use crate::process::{Invocation, InvocationView, Outcome, OutcomeView};
use crate::utils::status::Status;
use vstd::prelude::*;

verus! {

/// Something for the driver to do.
#[derive(PartialEq, Eq, Debug)]
pub enum Request {
    /// Write one status line about `subject`. Answered by `Done`.
    Report { status: Status, subject: String },
    /// Run a process to its end. Answered by `Outcome`.
    Invoke(Invocation),
    /// Say whether the directory is there. Answered by `Found`.
    LookupDirectory(String),
    /// Create the directory with all its parents. Answered by `Done`, or
    /// by `Failed` where it cannot be created.
    CreateDirectory(String),
    /// Say whether the environment variable is set. Answered by `Found`.
    LookupVariable(String),
    /// Ask the user for the value of the environment variable. Answered
    /// by `Line`, or by `Failed` where nothing can be read.
    AskValue(String),
    /// Show the user the value and ask whether it is right. Answered by
    /// `Line`, or by `Failed` where nothing can be read.
    AskConfirmation { name: String, value: String },
    /// Set the environment variable for this process. Answered by `Done`.
    SetVariable { name: String, value: String },
}

/// A [`Request`] as a mathematical value.
pub enum RequestView {
    Report { status: Status, subject: Seq<char> },
    Invoke(InvocationView),
    LookupDirectory(Seq<char>),
    CreateDirectory(Seq<char>),
    LookupVariable(Seq<char>),
    AskValue(Seq<char>),
    AskConfirmation { name: Seq<char>, value: Seq<char> },
    SetVariable { name: Seq<char>, value: Seq<char> },
}

impl View for Request {
    type V = RequestView;

    open spec fn view(&self) -> RequestView {
        match self {
            Request::Report { status, subject } => RequestView::Report {
                status: *status,
                subject: subject@,
            },
            Request::Invoke(invocation) => RequestView::Invoke(invocation@),
            Request::LookupDirectory(path) => RequestView::LookupDirectory(path@),
            Request::CreateDirectory(path) => RequestView::CreateDirectory(path@),
            Request::LookupVariable(name) => RequestView::LookupVariable(name@),
            Request::AskValue(name) => RequestView::AskValue(name@),
            Request::AskConfirmation { name, value } => RequestView::AskConfirmation {
                name: name@,
                value: value@,
            },
            Request::SetVariable { name, value } => RequestView::SetVariable {
                name: name@,
                value: value@,
            },
        }
    }
}

/// The view of a request that may be absent.
pub open spec fn request_view(request: Option<Request>) -> Option<RequestView> {
    match request {
        Some(request) => Some(request@),
        None => None,
    }
}

/// The request for an invocation, where there is one.
pub open spec fn invoke(invocation: Option<InvocationView>) -> Option<RequestView> {
    match invocation {
        Some(invocation) => Some(RequestView::Invoke(invocation)),
        None => None,
    }
}

/// What the driver has to say once a request is carried out.
#[derive(PartialEq, Eq, Debug)]
pub enum Reply {
    /// The request is carried out, and there is nothing to say of it.
    Done,
    /// The request could not be carried out; the text says why.
    Failed(String),
    /// What came of an invocation.
    Outcome(Outcome),
    /// Whether what was looked up is there.
    Found(bool),
    /// The line that the user typed, as it was read.
    Line(String),
}

/// A [`Reply`] as a mathematical value.
pub enum ReplyView {
    Done,
    Failed(Seq<char>),
    Outcome(OutcomeView),
    Found(bool),
    Line(Seq<char>),
}

impl View for Reply {
    type V = ReplyView;

    open spec fn view(&self) -> ReplyView {
        match self {
            Reply::Done => ReplyView::Done,
            Reply::Failed(reason) => ReplyView::Failed(reason@),
            Reply::Outcome(outcome) => ReplyView::Outcome(outcome@),
            Reply::Found(found) => ReplyView::Found(*found),
            Reply::Line(line) => ReplyView::Line(line@),
        }
    }
}

impl RequestView {
    /// Whether `reply` is an answer to this request.
    pub open spec fn answered_by(self, reply: ReplyView) -> bool {
        match self {
            RequestView::Report { .. } => reply is Done,
            RequestView::Invoke(_) => reply is Outcome,
            RequestView::LookupDirectory(_) => reply is Found,
            RequestView::CreateDirectory(_) => reply is Done || reply is Failed,
            RequestView::LookupVariable(_) => reply is Found,
            RequestView::AskValue(_) => reply is Line || reply is Failed,
            RequestView::AskConfirmation { .. } => reply is Line || reply is Failed,
            RequestView::SetVariable { .. } => reply is Done,
        }
    }
}

/// Whether `reply` answers the request that is out, if one is.
pub open spec fn answers(request: Option<RequestView>, reply: ReplyView) -> bool {
    request matches Some(request) && request.answered_by(reply)
}

impl Request {
    /// Whether `reply` is an answer to this request.
    pub fn answered_by(&self, reply: &Reply) -> (answered: bool)
        ensures
            answered == self@.answered_by(reply@),
    {
        match self {
            Request::Report { .. } => matches!(reply, Reply::Done),
            Request::Invoke(_) => matches!(reply, Reply::Outcome(_)),
            Request::LookupDirectory(_) => matches!(reply, Reply::Found(_)),
            Request::CreateDirectory(_) => matches!(reply, Reply::Done | Reply::Failed(_)),
            Request::LookupVariable(_) => matches!(reply, Reply::Found(_)),
            Request::AskValue(_) => matches!(reply, Reply::Line(_) | Reply::Failed(_)),
            Request::AskConfirmation { .. } => matches!(reply, Reply::Line(_) | Reply::Failed(_)),
            Request::SetVariable { .. } => matches!(reply, Reply::Done),
        }
    }
}

} // verus!
