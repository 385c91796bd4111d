//! The registered servers, driven as one: a command is settled on every
//! server on its own, and the outcomes come back in registration order.

use vstd::prelude::*;
use crate::client::{Client, Dialect};
use crate::plib::config::{PiConfig, PiServer};
use crate::protocol::{
    reply_view, Command, CommandOutcome, OutcomeView, Reply, ReplyView, Step,
};
use crate::text::strip_trailing_slashes;

verus! {

/// What came back for the server at `i`; `None` where the caller had nothing
/// for it.
pub open spec fn reply_at(replies: Seq<Option<ReplyView>>, i: int) -> Option<ReplyView> {
    if 0 <= i < replies.len() {
        replies[i]
    } else {
        None
    }
}

pub open spec fn replies_view(replies: Seq<Option<Reply>>) -> Seq<Option<ReplyView>> {
    replies.map_values(|r: Option<Reply>| reply_view(r))
}

/// The outcomes of `cmd` on `clients`, one per client and in their order.
pub open spec fn fleet_outcomes(
    clients: Seq<Client>,
    cmd: Command,
    replies: Seq<Option<ReplyView>>,
) -> Seq<OutcomeView> {
    Seq::new(clients.len(), |i: int| clients[i].settled(cmd, reply_at(replies, i)))
}

/// Whether `c` is the client built from `record` in `dialect`, before any
/// login.
pub open spec fn built_from(c: Client, record: PiServer, dialect: Dialect) -> bool {
    &&& c.dialect() == dialect
    &&& c.identity() == strip_trailing_slashes(record.base_url@)
    &&& c.credential() == record.api_key@
    &&& c.token().is_none()
}

/// The servers, in registration order.
pub struct Fleet {
    pub clients: Vec<Client>,
}

impl Fleet {
    pub fn new() -> (r: Self)
        ensures
            r.clients@.len() == 0,
    {
        Fleet { clients: Vec::new() }
    }

    /// A client for each server of `cfg`, in its order.
    pub fn from_config(cfg: &PiConfig, dialect: Dialect) -> (r: Self)
        ensures
            r.clients@.len() == cfg.servers@.len(),
            forall|i: int|
                0 <= i < cfg.servers@.len() ==> built_from(
                    #[trigger] r.clients@[i],
                    cfg.servers@[i],
                    dialect,
                ),
    {
        let mut fleet = Fleet::new();
        let mut i: usize = 0;
        while i < cfg.servers.len()
            invariant
                i <= cfg.servers@.len(),
                fleet.clients@.len() == i,
                forall|j: int|
                    0 <= j < i ==> built_from(#[trigger] fleet.clients@[j], cfg.servers@[j], dialect),
            decreases cfg.servers@.len() - i,
        {
            let ghost before = fleet.clients@;
            fleet.register(&cfg.servers[i], dialect);
            assert forall|j: int| 0 <= j <= i implies built_from(
                #[trigger] fleet.clients@[j],
                cfg.servers@[j],
                dialect,
            ) by {
                if j < i {
                    assert(fleet.clients@.subrange(0, i as int)[j] == fleet.clients@[j]);
                    assert(built_from(before[j], cfg.servers@[j], dialect));
                }
            }
            i = i + 1;
        }
        fleet
    }

    /// Adds a client for `record` after the others; the handle is its
    /// position.
    pub fn register(&mut self, record: &PiServer, dialect: Dialect) -> (h: usize)
        ensures
            h == old(self).clients@.len(),
            final(self).clients@.len() == old(self).clients@.len() + 1,
            final(self).clients@.subrange(0, h as int) == old(self).clients@,
            built_from(final(self).clients@[h as int], *record, dialect),
    {
        let h = self.clients.len();
        self.clients.push(Client::new(record, dialect));
        assert(self.clients@.subrange(0, h as int) =~= old(self).clients@);
        h
    }

    /// What to do for `cmd` on each server, in registration order.
    pub fn requests(&self, cmd: Command) -> (r: Vec<Step>)
        ensures
            r@.len() == self.clients@.len(),
            forall|i: int| 0 <= i < r@.len() ==> (#[trigger] r@[i])@ == self.clients@[i].step_for(cmd),
    {
        let mut r: Vec<Step> = Vec::new();
        let mut i: usize = 0;
        while i < self.clients.len()
            invariant
                i <= self.clients@.len(),
                r@.len() == i,
                forall|j: int| 0 <= j < i ==> (#[trigger] r@[j])@ == self.clients@[j].step_for(cmd),
            decreases self.clients@.len() - i,
        {
            r.push(self.clients[i].prepare(cmd));
            i = i + 1;
        }
        r
    }

    /// Settles `cmd` on every server. `replies[i]` is what came back for the
    /// request of the server at `i` (`None`: nothing did, or nothing was
    /// sent). One outcome per server, in registration order, each labelled
    /// with its server and depending on that server and its reply alone.
    pub fn dispatch(&mut self, cmd: Command, replies: &Vec<Option<Reply>>) -> (r: Vec<
        CommandOutcome,
    >)
        ensures
            r@.len() == old(self).clients@.len(),
            final(self).clients@.len() == old(self).clients@.len(),
            forall|i: int|
                0 <= i < r@.len() ==> {
                    &&& (#[trigger] r@[i]).server@ == old(self).clients@[i].identity()
                    &&& r@[i].result@ == fleet_outcomes(
                        old(self).clients@,
                        cmd,
                        replies_view(replies@),
                    )[i]
                    &&& final(self).clients@[i].token() == old(self).clients@[i].token_after(
                        cmd,
                        reply_at(replies_view(replies@), i),
                    )
                    &&& final(self).clients@[i].dialect() == old(self).clients@[i].dialect()
                    &&& final(self).clients@[i].identity() == old(self).clients@[i].identity()
                    &&& final(self).clients@[i].credential() == old(
                        self,
                    ).clients@[i].credential()
                },
    {
        let ghost start = self.clients@;
        let ghost rv = replies_view(replies@);
        let mut r: Vec<CommandOutcome> = Vec::new();
        let n = self.clients.len();
        let mut i: usize = 0;
        while i < n
            invariant
                n == start.len(),
                i <= n,
                self.clients@.len() == n,
                r@.len() == i,
                rv == replies_view(replies@),
                forall|j: int| i <= j < n ==> self.clients@[j] == start[j],
                forall|j: int|
                    0 <= j < i ==> {
                        &&& (#[trigger] r@[j]).server@ == start[j].identity()
                        &&& r@[j].result@ == start[j].settled(cmd, reply_at(rv, j))
                        &&& self.clients@[j].token() == start[j].token_after(cmd, reply_at(rv, j))
                        &&& self.clients@[j].dialect() == start[j].dialect()
                        &&& self.clients@[j].identity() == start[j].identity()
                        &&& self.clients@[j].credential() == start[j].credential()
                    },
            decreases n - i,
        {
            let server = self.clients[i].server();
            let result = if i < replies.len() {
                self.clients[i].settle(cmd, &replies[i])
            } else {
                self.clients[i].settle(cmd, &None)
            };
            r.push(CommandOutcome { server, result });
            i = i + 1;
        }
        r
    }
}

/// A server that sent nothing back, where its command needed a request, has
/// the outcome `Unreachable`; and no server's outcome depends on what came
/// back for another: changing the reply at `j` changes no other outcome.
pub proof fn lemma_failure_isolated(
    clients: Seq<Client>,
    cmd: Command,
    replies: Seq<Option<ReplyView>>,
    others: Seq<Option<ReplyView>>,
    j: int,
)
    requires
        0 <= j < clients.len(),
        reply_at(replies, j).is_none(),
        clients[j].step_for(cmd) is Send,
        forall|i: int| 0 <= i < clients.len() && i != j ==> reply_at(others, i) == reply_at(replies, i),
    ensures
        fleet_outcomes(clients, cmd, replies)[j] == OutcomeView::Unreachable,
        fleet_outcomes(clients, cmd, replies).len() == clients.len(),
        forall|i: int|
            0 <= i < clients.len() && i != j ==> #[trigger] fleet_outcomes(clients, cmd, replies)[i]
                == fleet_outcomes(clients, cmd, others)[i],
{
    assert forall|i: int|
        0 <= i < clients.len() && i != j implies #[trigger] fleet_outcomes(clients, cmd, replies)[i]
        == fleet_outcomes(clients, cmd, others)[i] by {
        assert(reply_at(others, i) == reply_at(replies, i));
    }
}

} // verus!
