//! What passes between the library and the transport that the caller runs:
//! commands, the requests they become, the replies, and the outcomes.

use vstd::prelude::*;

verus! {

/// The number of items asked for where a count is missing or zero.
pub const DEFAULT_COUNT: usize = 25;

/// A command that every dialect understands.
#[derive(Clone, Copy, PartialEq, Eq, Structural, Debug)]
pub enum Command {
    Authenticate,
    Status,
    Enable,
    /// Filtering off for this many seconds.
    Disable(u64),
    Summary,
    Version,
    TopDomains(Option<usize>),
    TopClients(Option<usize>),
    Upstreams,
    QueryTypes,
    RecentBlocked(Option<usize>),
    OverTimeData,
    AllQueries,
}

/// The count that a count argument stands for.
pub open spec fn count_or_default(n: Option<usize>) -> nat {
    match n {
        Some(k) if k > 0 => k as nat,
        _ => DEFAULT_COUNT as nat,
    }
}

pub fn count_or_default_of(n: Option<usize>) -> (r: usize)
    ensures
        r as nat == count_or_default(n),
{
    match n {
        Some(k) if k > 0 => k,
        _ => DEFAULT_COUNT,
    }
}

#[derive(Clone, Copy, PartialEq, Eq, Structural, Debug)]
pub enum Method {
    Get,
    Post,
}

/// One HTTP request: a POST carries `body` as JSON, and `session`, where
/// present, goes in the session header.
pub struct Request {
    pub method: Method,
    pub url: String,
    pub body: Option<String>,
    pub session: Option<String>,
}

pub struct RequestView {
    pub method: Method,
    pub url: Seq<char>,
    pub body: Option<Seq<char>>,
    pub session: Option<Seq<char>>,
}

pub open spec fn opt_view(s: Option<String>) -> Option<Seq<char>> {
    match s {
        Some(t) => Some(t@),
        None => None,
    }
}

impl View for Request {
    type V = RequestView;

    open spec fn view(&self) -> RequestView {
        RequestView {
            method: self.method,
            url: self.url@,
            body: opt_view(self.body),
            session: opt_view(self.session),
        }
    }
}

/// What came back from a server: the HTTP status and the body.
pub struct Reply {
    pub status: u16,
    pub body: String,
}

pub struct ReplyView {
    pub status: u16,
    pub body: Seq<char>,
}

impl View for Reply {
    type V = ReplyView;

    open spec fn view(&self) -> ReplyView {
        ReplyView { status: self.status, body: self.body@ }
    }
}

pub open spec fn reply_view(r: Option<Reply>) -> Option<ReplyView> {
    match r {
        Some(x) => Some(x@),
        None => None,
    }
}

/// The HTTP status with which a server refuses a missing or stale
/// credential.
pub const UNAUTHORIZED: u16 = 401;

/// What a successful command yields.
pub enum Answer {
    /// The credential was accepted.
    Authenticated,
    /// The blocking state that the server reports: `true` when filtering
    /// is on.
    Blocking(bool),
    /// The blocking state as the server wrote it, whatever its form.
    State(serde_json::Value),
    /// A JSON document, handed on as the server wrote it.
    Document(serde_json::Value),
}

/// The result of one command on one server.
pub enum Outcome {
    Success(Answer),
    AuthFailure,
    Unreachable,
    ProtocolError(String),
}

pub enum OutcomeView {
    Success(Answer),
    AuthFailure,
    Unreachable,
    ProtocolError(Seq<char>),
}

impl View for Outcome {
    type V = OutcomeView;

    open spec fn view(&self) -> OutcomeView {
        match self {
            Outcome::Success(a) => OutcomeView::Success(*a),
            Outcome::AuthFailure => OutcomeView::AuthFailure,
            Outcome::Unreachable => OutcomeView::Unreachable,
            Outcome::ProtocolError(m) => OutcomeView::ProtocolError(m@),
        }
    }
}

/// The next thing to do for a command: send a request, or nothing, the
/// outcome being known without one.
pub enum Step {
    Send(Request),
    Done(Outcome),
}

pub enum StepView {
    Send(RequestView),
    Done(OutcomeView),
}

impl View for Step {
    type V = StepView;

    open spec fn view(&self) -> StepView {
        match self {
            Step::Send(r) => StepView::Send(r@),
            Step::Done(o) => StepView::Done(o@),
        }
    }
}

/// The outcome of one command on one server, labelled with the server.
pub struct CommandOutcome {
    pub server: String,
    pub result: Outcome,
}

/// Whether two texts hold the same characters.
pub fn same_text(a: &str, b: &str) -> (r: bool)
    ensures
        r == (a@ == b@),
{
    let n = a.unicode_len();
    if n != b.unicode_len() {
        return false;
    }
    let mut i: usize = 0;
    while i < n
        invariant
            n == a@.len() == b@.len(),
            i <= n,
            forall|j: int| 0 <= j < i ==> a@[j] == b@[j],
        decreases n - i,
    {
        if a.get_char(i) != b.get_char(i) {
            return false;
        }
        i = i + 1;
    }
    assert(a@ =~= b@);
    true
}

/// The message of the protocol error for a reply that is not JSON.
pub open spec fn not_json_message() -> Seq<char> {
    "the reply is not JSON"@
}

pub fn not_json() -> (r: Outcome)
    ensures
        r@ == OutcomeView::ProtocolError(not_json_message()),
{
    Outcome::ProtocolError("the reply is not JSON".to_owned())
}

/// The message of the protocol error for a reply without a blocking state.
pub open spec fn no_state_message() -> Seq<char> {
    "the reply holds no blocking state"@
}

pub fn no_state() -> (r: Outcome)
    ensures
        r@ == OutcomeView::ProtocolError(no_state_message()),
{
    Outcome::ProtocolError("the reply holds no blocking state".to_owned())
}

} // verus!
