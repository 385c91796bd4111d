//! The legacy dialect: every request is a GET of
//! `<base>/api.php?auth=<key>&<command>[=<value>]`, the key standing in for a
//! login.

use vstd::prelude::*;
use crate::protocol::{
    count_or_default, count_or_default_of, reply_view, Answer, Command, Method, Outcome,
    OutcomeView, Reply, ReplyView, Request, RequestView, Step, StepView, UNAUTHORIZED,
};
use crate::reading::{document_outcome, read_document, read_state, state_outcome};
use crate::text::{decimal, push_decimal, strip_trailing_slashes, trim_trailing_slashes};

verus! {

/// A server of the legacy dialect.
pub struct Pihole {
    pub base_url: String,
    pub api_key: String,
}

/// The query item that a command adds after the key. A login sends
/// nothing in this dialect; it shares the status item only so that every
/// command has one.
pub open spec fn query_item(cmd: Command) -> Seq<char> {
    match cmd {
        Command::Authenticate | Command::Status => "status"@,
        Command::Enable => "enable"@,
        Command::Disable(s) => "disable="@ + decimal(s as nat),
        Command::Summary => "summaryRaw"@,
        Command::Version => "versions"@,
        Command::TopDomains(n) => "topItems="@ + decimal(count_or_default(n)),
        Command::TopClients(n) => "topClients="@ + decimal(count_or_default(n)),
        Command::Upstreams => "getForwardDestinations"@,
        Command::QueryTypes => "getQueryTypes"@,
        Command::RecentBlocked(n) => "recentBlocked="@ + decimal(count_or_default(n)),
        Command::OverTimeData => "overTimeData10mins"@,
        Command::AllQueries => "getAllQueries"@,
    }
}

fn query_item_of(cmd: Command) -> (r: String)
    ensures
        r@ == query_item(cmd),
{
    let mut q = String::new();
    match cmd {
        Command::Authenticate | Command::Status => q.append("status"),
        Command::Enable => q.append("enable"),
        Command::Disable(s) => {
            q.append("disable=");
            push_decimal(&mut q, s);
        },
        Command::Summary => q.append("summaryRaw"),
        Command::Version => q.append("versions"),
        Command::TopDomains(n) => {
            q.append("topItems=");
            push_decimal(&mut q, count_or_default_of(n) as u64);
        },
        Command::TopClients(n) => {
            q.append("topClients=");
            push_decimal(&mut q, count_or_default_of(n) as u64);
        },
        Command::Upstreams => q.append("getForwardDestinations"),
        Command::QueryTypes => q.append("getQueryTypes"),
        Command::RecentBlocked(n) => {
            q.append("recentBlocked=");
            push_decimal(&mut q, count_or_default_of(n) as u64);
        },
        Command::OverTimeData => q.append("overTimeData10mins"),
        Command::AllQueries => q.append("getAllQueries"),
    }
    assert(q@ =~= query_item(cmd));
    q
}

impl Pihole {
    /// The URL with the key, to which a query item is appended.
    pub open spec fn api_root(&self) -> Seq<char> {
        self.base_url@ + "/api.php?auth="@ + self.api_key@
    }

    /// What `prepare` does for `cmd`: the key makes a login needless, and
    /// every other command is one GET.
    pub open spec fn step_for(&self, cmd: Command) -> StepView {
        match cmd {
            Command::Authenticate => StepView::Done(OutcomeView::Success(Answer::Authenticated)),
            _ => StepView::Send(
                RequestView {
                    method: Method::Get,
                    url: self.api_root() + "&"@ + query_item(cmd),
                    body: None,
                    session: None,
                },
            ),
        }
    }

    /// The outcome that `complete` gives for `cmd` and what came back; the
    /// commands on the blocking state read the `status` member.
    pub open spec fn outcome_for(&self, cmd: Command, reply: Option<ReplyView>) -> OutcomeView {
        match reply {
            None => OutcomeView::Unreachable,
            Some(r) => if r.status == UNAUTHORIZED {
                OutcomeView::AuthFailure
            } else {
                match cmd {
                    Command::Authenticate => OutcomeView::Success(Answer::Authenticated),
                    Command::Status | Command::Enable | Command::Disable(_) => state_outcome(
                        r.body,
                        "status"@,
                    ),
                    _ => document_outcome(r.body),
                }
            },
        }
    }

    pub fn new(base_url: &str, api_key: &str) -> (r: Self)
        ensures
            r.base_url@ == strip_trailing_slashes(base_url@),
            r.api_key@ == api_key@,
    {
        Pihole { base_url: trim_trailing_slashes(base_url), api_key: api_key.to_owned() }
    }

    /// The URL with the key.
    pub fn build_url(&self) -> (r: String)
        ensures
            r@ == self.api_root(),
    {
        let mut u = self.base_url.clone();
        u.append("/api.php?auth=");
        u.append(self.api_key.as_str());
        u
    }

    pub fn prepare(&self, cmd: Command) -> (r: Step)
        ensures
            r@ == self.step_for(cmd),
    {
        match cmd {
            Command::Authenticate => Step::Done(Outcome::Success(Answer::Authenticated)),
            _ => {
                let mut url = self.build_url();
                url.append("&");
                let q = query_item_of(cmd);
                url.append(q.as_str());
                assert(url@ =~= self.api_root() + "&"@ + query_item(cmd));
                Step::Send(Request { method: Method::Get, url, body: None, session: None })
            },
        }
    }

    /// Reads what came back for `cmd` (`None`: the server could not be
    /// reached).
    pub fn complete(&self, cmd: Command, reply: &Option<Reply>) -> (r: Outcome)
        ensures
            r@ == self.outcome_for(cmd, reply_view(*reply)),
    {
        match reply {
            None => Outcome::Unreachable,
            Some(r) => {
                if r.status == UNAUTHORIZED {
                    Outcome::AuthFailure
                } else {
                    match cmd {
                        Command::Authenticate => Outcome::Success(Answer::Authenticated),
                        Command::Status | Command::Enable | Command::Disable(_) => read_state(
                            r.body.as_str(),
                            "status",
                        ),
                        _ => read_document(r.body.as_str()),
                    }
                }
            },
        }
    }

    pub fn summary(&self) -> (r: Step)
        ensures
            r@ == self.step_for(Command::Summary),
    {
        self.prepare(Command::Summary)
    }

    pub fn enable(&self) -> (r: Step)
        ensures
            r@ == self.step_for(Command::Enable),
    {
        self.prepare(Command::Enable)
    }

    pub fn disable(&self, seconds: u64) -> (r: Step)
        ensures
            r@ == self.step_for(Command::Disable(seconds)),
    {
        self.prepare(Command::Disable(seconds))
    }
}

} // verus!
