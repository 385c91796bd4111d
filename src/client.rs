//! One server and the dialect it speaks, chosen once when the client is
//! built.

use vstd::prelude::*;
use crate::pihole::Pihole as KeyPihole;
use crate::plib::config::PiServer;
use crate::plib::pihole::Pihole as SessionPihole;
use crate::protocol::{reply_view, Command, Outcome, OutcomeView, Reply, ReplyView, Step, StepView};
use crate::text::strip_trailing_slashes;

verus! {

/// The wire dialect of a server.
#[derive(Clone, Copy, PartialEq, Eq, Structural, Debug)]
pub enum Dialect {
    /// Key in the query string, no login.
    Legacy,
    /// Login first, then a session token on every request.
    Session,
}

/// A server with the adapter of its dialect. A client owns copies of the
/// record's fields: later edits of the configuration do not reach it.
pub enum Client {
    Legacy(KeyPihole),
    Session(SessionPihole),
}

impl Client {
    pub open spec fn dialect(&self) -> Dialect {
        match self {
            Client::Legacy(_) => Dialect::Legacy,
            Client::Session(_) => Dialect::Session,
        }
    }

    /// The base URL, by which outcomes are labelled.
    pub open spec fn identity(&self) -> Seq<char> {
        match self {
            Client::Legacy(p) => p.base_url@,
            Client::Session(p) => p.base_url@,
        }
    }

    pub open spec fn credential(&self) -> Seq<char> {
        match self {
            Client::Legacy(p) => p.api_key@,
            Client::Session(p) => p.passwd@,
        }
    }

    /// The session token held; never one in the legacy dialect.
    pub open spec fn token(&self) -> Option<Seq<char>> {
        match self {
            Client::Legacy(_) => None,
            Client::Session(p) => crate::protocol::opt_view(p.sid),
        }
    }

    pub open spec fn step_for(&self, cmd: Command) -> StepView {
        match self {
            Client::Legacy(p) => p.step_for(cmd),
            Client::Session(p) => p.step_for(cmd),
        }
    }

    /// The outcome of `cmd` given what came back for its request; where no
    /// request is needed, the outcome known without one.
    pub open spec fn settled(&self, cmd: Command, reply: Option<ReplyView>) -> OutcomeView {
        match self.step_for(cmd) {
            StepView::Done(o) => o,
            StepView::Send(_) => match self {
                Client::Legacy(p) => p.outcome_for(cmd, reply),
                Client::Session(p) => p.outcome_for(cmd, reply),
            },
        }
    }

    /// The token held once `cmd` is settled.
    pub open spec fn token_after(&self, cmd: Command, reply: Option<ReplyView>) -> Option<
        Seq<char>,
    > {
        match self.step_for(cmd) {
            StepView::Done(_) => self.token(),
            StepView::Send(_) => match self {
                Client::Legacy(_) => None,
                Client::Session(p) => p.token_after(cmd, reply),
            },
        }
    }

    pub fn new(record: &PiServer, dialect: Dialect) -> (r: Self)
        ensures
            r.dialect() == dialect,
            r.identity() == strip_trailing_slashes(record.base_url@),
            r.credential() == record.api_key@,
            r.token().is_none(),
    {
        match dialect {
            Dialect::Legacy => Client::Legacy(
                KeyPihole::new(record.base_url.as_str(), record.api_key.as_str()),
            ),
            Dialect::Session => Client::Session(SessionPihole::from_cfg(record)),
        }
    }

    /// Whether commands need a login first.
    pub fn requires_session(&self) -> (r: bool)
        ensures
            r == (self.dialect() == Dialect::Session),
    {
        match self {
            Client::Legacy(_) => false,
            Client::Session(_) => true,
        }
    }

    pub fn server(&self) -> (r: String)
        ensures
            r@ == self.identity(),
    {
        match self {
            Client::Legacy(p) => p.base_url.clone(),
            Client::Session(p) => p.base_url.clone(),
        }
    }

    /// The request for `cmd`, or its outcome where none is needed.
    pub fn prepare(&self, cmd: Command) -> (r: Step)
        ensures
            r@ == self.step_for(cmd),
    {
        match self {
            Client::Legacy(p) => p.prepare(cmd),
            Client::Session(p) => p.prepare(cmd),
        }
    }

    /// Settles `cmd` with what came back for its request (`None`: nothing
    /// did); a command that needed no request keeps the outcome it had.
    pub fn settle(&mut self, cmd: Command, reply: &Option<Reply>) -> (r: Outcome)
        ensures
            r@ == old(self).settled(cmd, reply_view(*reply)),
            final(self).token() == old(self).token_after(cmd, reply_view(*reply)),
            final(self).dialect() == old(self).dialect(),
            final(self).identity() == old(self).identity(),
            final(self).credential() == old(self).credential(),
    {
        let step = self.prepare(cmd);
        match step {
            Step::Done(o) => o,
            Step::Send(_) => match self {
                Client::Legacy(p) => p.complete(cmd, reply),
                Client::Session(p) => p.complete(cmd, reply),
            },
        }
    }
}

/// A session client that holds no token refuses every command but the login
/// with `AuthFailure`, sends no request for it, and keeps holding no token,
/// whatever the caller hands back.
pub proof fn lemma_no_login_no_request(c: Client, cmd: Command, reply: Option<ReplyView>)
    requires
        c.dialect() == Dialect::Session,
        c.token().is_none(),
        cmd != Command::Authenticate,
    ensures
        c.step_for(cmd) == StepView::Done(OutcomeView::AuthFailure),
        c.settled(cmd, reply) == OutcomeView::AuthFailure,
        c.token_after(cmd, reply).is_none(),
{
}

/// A login whose reply carries a session token `t` succeeds, the client then
/// holds `t`, and every later request, a new login included, carries `t` in
/// its session header.
pub proof fn lemma_login_then_token(
    c: Client,
    reply: ReplyView,
    after: Client,
    cmd: Command,
)
    requires
        c.dialect() == Dialect::Session,
        reply.status != crate::protocol::UNAUTHORIZED,
        crate::json::json_document(reply.body).is_some(),
        crate::reading::session_token(crate::json::json_document(reply.body).unwrap()).is_some(),
        after.dialect() == Dialect::Session,
        after.token() == c.token_after(Command::Authenticate, Some(reply)),
    ensures
        c.settled(Command::Authenticate, Some(reply)) == OutcomeView::Success(
            crate::protocol::Answer::Authenticated,
        ),
        after.token() == crate::reading::session_token(
            crate::json::json_document(reply.body).unwrap(),
        ),
        after.step_for(cmd) is Send,
        after.step_for(cmd)->Send_0.session == after.token(),
{
}

} // verus!
