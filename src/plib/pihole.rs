//! The session-token dialect: requests go to `<base>/api/<path>`, a login
//! yields a token, and every request carries the token held. The blocking
//! state is read from the `blocking` member of a reply, whatever it holds.

use vstd::prelude::*;
use crate::json::{json_document, json_quoted, parse_document, quote};
use crate::plib::config::PiServer;
use crate::protocol::{
    count_or_default, count_or_default_of, not_json, not_json_message, opt_view, reply_view,
    Answer, Command, Method, Outcome, OutcomeView, Reply, ReplyView, Request, RequestView, Step,
    StepView, UNAUTHORIZED,
};
use crate::reading::{
    document_outcome, member_outcome, read_document, read_member, session_token, token_of,
};
use crate::text::{decimal, push_decimal, strip_trailing_slashes, trim_trailing_slashes};

verus! {

/// A server of the session dialect, with the token of its current login.
pub struct Pihole {
    pub base_url: String,
    pub passwd: String,
    /// The session token; `None` until a login succeeds.
    pub sid: Option<String>,
}

/// The path under `/api/` that a command goes to.
pub open spec fn api_path(cmd: Command) -> Seq<char> {
    match cmd {
        Command::Authenticate => "auth"@,
        Command::Status | Command::Enable | Command::Disable(_) => "dns/blocking"@,
        Command::Summary => "stats/summary"@,
        Command::Version => "info/version"@,
        Command::TopDomains(n) => "stats/top_domains?count="@ + decimal(count_or_default(n)),
        Command::TopClients(n) => "stats/top_clients?count="@ + decimal(count_or_default(n)),
        Command::Upstreams => "stats/upstreams"@,
        Command::QueryTypes => "stats/query_types"@,
        Command::RecentBlocked(n) => "stats/recent_blocked?count="@ + decimal(
            count_or_default(n),
        ),
        Command::OverTimeData => "overTimeData10mins"@,
        Command::AllQueries => "queries"@,
    }
}

/// The JSON body of a command other than the login: only the commands that
/// change the blocking state have one.
pub open spec fn api_body(cmd: Command) -> Option<Seq<char>> {
    match cmd {
        Command::Enable => Some("{\"blocking\":true,\"timer\":null}"@),
        Command::Disable(s) => Some("{\"blocking\":false,\"timer\":"@ + decimal(s as nat) + "}"@),
        _ => None,
    }
}

fn api_path_of(cmd: Command) -> (r: String)
    ensures
        r@ == api_path(cmd),
{
    let mut p = String::new();
    match cmd {
        Command::Authenticate => p.append("auth"),
        Command::Status | Command::Enable | Command::Disable(_) => p.append("dns/blocking"),
        Command::Summary => p.append("stats/summary"),
        Command::Version => p.append("info/version"),
        Command::TopDomains(n) => {
            p.append("stats/top_domains?count=");
            push_decimal(&mut p, count_or_default_of(n) as u64);
        },
        Command::TopClients(n) => {
            p.append("stats/top_clients?count=");
            push_decimal(&mut p, count_or_default_of(n) as u64);
        },
        Command::Upstreams => p.append("stats/upstreams"),
        Command::QueryTypes => p.append("stats/query_types"),
        Command::RecentBlocked(n) => {
            p.append("stats/recent_blocked?count=");
            push_decimal(&mut p, count_or_default_of(n) as u64);
        },
        Command::OverTimeData => p.append("overTimeData10mins"),
        Command::AllQueries => p.append("queries"),
    }
    assert(p@ =~= api_path(cmd));
    p
}

fn api_body_of(cmd: Command) -> (r: Option<String>)
    ensures
        opt_view(r) == api_body(cmd),
{
    match cmd {
        Command::Enable => Some("{\"blocking\":true,\"timer\":null}".to_owned()),
        Command::Disable(s) => {
            let mut b = "{\"blocking\":false,\"timer\":".to_owned();
            push_decimal(&mut b, s);
            b.append("}");
            Some(b)
        },
        _ => None,
    }
}

impl Pihole {
    /// The URL of the command at `path`.
    pub open spec fn url_for(&self, path: Seq<char>) -> Seq<char> {
        self.base_url@ + "/api"@ + "/"@ + path
    }

    /// What `prepare` does for `cmd`.
    pub open spec fn step_for(&self, cmd: Command) -> StepView {
        match cmd {
            Command::Authenticate => StepView::Send(
                RequestView {
                    method: Method::Post,
                    url: self.url_for(api_path(cmd)),
                    body: Some("{\"password\":"@ + json_quoted(self.passwd@) + "}"@),
                    session: opt_view(self.sid),
                },
            ),
            _ => if self.sid.is_none() {
                StepView::Done(OutcomeView::AuthFailure)
            } else {
                StepView::Send(
                    RequestView {
                        method: if api_body(cmd).is_some() {
                            Method::Post
                        } else {
                            Method::Get
                        },
                        url: self.url_for(api_path(cmd)),
                        body: api_body(cmd),
                        session: opt_view(self.sid),
                    },
                )
            },
        }
    }

    /// The outcome that `complete` gives for `cmd` and what came back.
    pub open spec fn outcome_for(&self, cmd: Command, reply: Option<ReplyView>) -> OutcomeView {
        match reply {
            None => OutcomeView::Unreachable,
            Some(r) => if r.status == UNAUTHORIZED {
                OutcomeView::AuthFailure
            } else {
                match cmd {
                    Command::Authenticate => match json_document(r.body) {
                        None => OutcomeView::ProtocolError(not_json_message()),
                        Some(d) => match session_token(d) {
                            Some(_) => OutcomeView::Success(Answer::Authenticated),
                            None => OutcomeView::AuthFailure,
                        },
                    },
                    Command::Status | Command::Enable | Command::Disable(_) => member_outcome(
                        r.body,
                        "blocking"@,
                    ),
                    _ => document_outcome(r.body),
                }
            },
        }
    }

    /// The token held after `complete`: a login that succeeds replaces it, a
    /// refusal for want of a valid credential drops it, anything else keeps
    /// it.
    pub open spec fn token_after(&self, cmd: Command, reply: Option<ReplyView>) -> Option<
        Seq<char>,
    > {
        match reply {
            None => opt_view(self.sid),
            Some(r) => if r.status == UNAUTHORIZED {
                None
            } else {
                match cmd {
                    Command::Authenticate => match json_document(r.body) {
                        Some(d) => match session_token(d) {
                            Some(t) => Some(t),
                            None => opt_view(self.sid),
                        },
                        None => opt_view(self.sid),
                    },
                    _ => opt_view(self.sid),
                }
            },
        }
    }

    pub fn new(base_url: &str, passwd: &str) -> (r: Self)
        ensures
            r.base_url@ == strip_trailing_slashes(base_url@),
            r.passwd@ == passwd@,
            r.sid.is_none(),
    {
        Pihole { base_url: trim_trailing_slashes(base_url), passwd: passwd.to_owned(), sid: None }
    }

    /// A server built from its configuration, not logged in.
    pub fn from_cfg(cfg: &PiServer) -> (r: Self)
        ensures
            r.base_url@ == strip_trailing_slashes(cfg.base_url@),
            r.passwd@ == cfg.api_key@,
            r.sid.is_none(),
    {
        Pihole::new(cfg.base_url.as_str(), cfg.api_key.as_str())
    }

    /// The root of the API.
    pub fn build_url(&self) -> (r: String)
        ensures
            r@ == self.base_url@ + "/api"@,
    {
        let mut u = self.base_url.clone();
        u.append("/api");
        u
    }

    /// The request for `cmd`; without a token, every command but the login
    /// fails at once with `AuthFailure`.
    pub fn prepare(&self, cmd: Command) -> (r: Step)
        ensures
            r@ == self.step_for(cmd),
    {
        let mut url = self.build_url();
        url.append("/");
        let path = api_path_of(cmd);
        url.append(path.as_str());
        assert(url@ =~= self.url_for(api_path(cmd)));
        match cmd {
            Command::Authenticate => {
                let q = quote(self.passwd.as_str()).unwrap();
                let mut body = "{\"password\":".to_owned();
                body.append(q.as_str());
                body.append("}");
                let session = match &self.sid {
                    Some(sid) => Some(sid.clone()),
                    None => None,
                };
                Step::Send(Request { method: Method::Post, url, body: Some(body), session })
            },
            _ => {
                match &self.sid {
                    None => Step::Done(Outcome::AuthFailure),
                    Some(sid) => {
                        let body = api_body_of(cmd);
                        let method = if body.is_some() {
                            Method::Post
                        } else {
                            Method::Get
                        };
                        Step::Send(Request { method, url, body, session: Some(sid.clone()) })
                    },
                }
            },
        }
    }

    /// Reads what came back for `cmd` (`None`: the server could not be
    /// reached) and updates the session.
    pub fn complete(&mut self, cmd: Command, reply: &Option<Reply>) -> (r: Outcome)
        ensures
            r@ == old(self).outcome_for(cmd, reply_view(*reply)),
            opt_view(final(self).sid) == old(self).token_after(cmd, reply_view(*reply)),
            final(self).base_url == old(self).base_url,
            final(self).passwd == old(self).passwd,
    {
        match reply {
            None => Outcome::Unreachable,
            Some(r) => {
                if r.status == UNAUTHORIZED {
                    self.sid = None;
                    Outcome::AuthFailure
                } else {
                    match cmd {
                        Command::Authenticate => match parse_document(r.body.as_str()) {
                            None => not_json(),
                            Some(d) => match token_of(&d) {
                                Some(t) => {
                                    self.sid = Some(t);
                                    Outcome::Success(Answer::Authenticated)
                                },
                                None => Outcome::AuthFailure,
                            },
                        },
                        Command::Status | Command::Enable | Command::Disable(_) => read_member(
                            r.body.as_str(),
                            "blocking",
                        ),
                        _ => read_document(r.body.as_str()),
                    }
                }
            },
        }
    }

    /// The login request.
    pub fn auth(&self) -> (r: Step)
        ensures
            r@ == self.step_for(Command::Authenticate),
    {
        self.prepare(Command::Authenticate)
    }

    pub fn version(&self) -> (r: Step)
        ensures
            r@ == self.step_for(Command::Version),
    {
        self.prepare(Command::Version)
    }

    pub fn over_time_data_10_mins(&self) -> (r: Step)
        ensures
            r@ == self.step_for(Command::OverTimeData),
    {
        self.prepare(Command::OverTimeData)
    }

    /// The top domains; a missing or zero count asks for the default.
    pub fn top_items(&self, top_n: Option<usize>) -> (r: Step)
        ensures
            r@ == self.step_for(Command::TopDomains(top_n)),
    {
        self.prepare(Command::TopDomains(top_n))
    }

    /// The top clients; a missing or zero count asks for the default.
    pub fn top_clients(&self, top_n: Option<usize>) -> (r: Step)
        ensures
            r@ == self.step_for(Command::TopClients(top_n)),
    {
        self.prepare(Command::TopClients(top_n))
    }

    pub fn get_upstreams(&self) -> (r: Step)
        ensures
            r@ == self.step_for(Command::Upstreams),
    {
        self.prepare(Command::Upstreams)
    }

    pub fn get_query_types(&self) -> (r: Step)
        ensures
            r@ == self.step_for(Command::QueryTypes),
    {
        self.prepare(Command::QueryTypes)
    }

    pub fn get_all_queries(&self) -> (r: Step)
        ensures
            r@ == self.step_for(Command::AllQueries),
    {
        self.prepare(Command::AllQueries)
    }

    pub fn summary(&self) -> (r: Step)
        ensures
            r@ == self.step_for(Command::Summary),
    {
        self.prepare(Command::Summary)
    }

    pub fn status(&self) -> (r: Step)
        ensures
            r@ == self.step_for(Command::Status),
    {
        self.prepare(Command::Status)
    }

    pub fn enable(&self) -> (r: Step)
        ensures
            r@ == self.step_for(Command::Enable),
    {
        self.prepare(Command::Enable)
    }

    pub fn disable(&self, seconds: u64) -> (r: Step)
        ensures
            r@ == self.step_for(Command::Disable(seconds)),
    {
        self.prepare(Command::Disable(seconds))
    }

    /// The most recently blocked domains; a missing or zero count asks for
    /// the default.
    pub fn recent_blocked(&self, n: Option<usize>) -> (r: Step)
        ensures
            r@ == self.step_for(Command::RecentBlocked(n)),
    {
        self.prepare(Command::RecentBlocked(n))
    }
}

} // verus!
