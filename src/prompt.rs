//! The decisions of the interactive set-up: how answers are read and how the
//! server list is revised. The prompts themselves belong to the caller.

use vstd::prelude::*;
use crate::plib::config::{PiConfig, PiServer};
use crate::protocol::same_text;
use crate::text::{parse_usize, trim_spaces, trimmed, usize_text};

verus! {

/// Whether an answer, white space aside, is one of `y`, `yes`, `YES`, `Y`.
pub open spec fn is_yes(ans: Seq<char>) -> bool {
    let t = trimmed(ans);
    t == "y"@ || t == "yes"@ || t == "YES"@ || t == "Y"@
}

pub fn check_yes(ans: &str) -> (r: bool)
    ensures
        r == is_yes(ans@),
{
    let t = trim_spaces(ans);
    same_text(t, "y") || same_text(t, "yes") || same_text(t, "YES") || same_text(t, "Y")
}

/// The number an answer gives, white space aside.
pub fn check_num_resp(ans: &str) -> (r: Option<usize>)
    ensures
        r.is_some() == usize_text(trimmed(ans@)).is_some(),
        r.is_some() ==> r.unwrap() as nat == usize_text(trimmed(ans@)).unwrap(),
{
    parse_usize(trim_spaces(ans))
}

/// What to do with a configured server.
#[derive(Clone, Copy, PartialEq, Eq, Structural, Debug)]
pub enum ServerChoice {
    Modify,
    Delete,
    Keep,
}

/// The choice that an answer of 1, 2 or 3 selects.
pub open spec fn choice_for(ans: Seq<char>) -> Option<ServerChoice> {
    match usize_text(trimmed(ans)) {
        Some(n) => if n == 1 {
            Some(ServerChoice::Modify)
        } else if n == 2 {
            Some(ServerChoice::Delete)
        } else if n == 3 {
            Some(ServerChoice::Keep)
        } else {
            None
        },
        None => None,
    }
}

/// Reads the answer to "modify, delete or keep"; `None` asks again.
pub fn choice_of(ans: &str) -> (r: Option<ServerChoice>)
    ensures
        r == choice_for(ans@),
{
    match check_num_resp(ans) {
        Some(n) => {
            if n == 1 {
                Some(ServerChoice::Modify)
            } else if n == 2 {
                Some(ServerChoice::Delete)
            } else if n == 3 {
                Some(ServerChoice::Keep)
            } else {
                None
            }
        },
        None => None,
    }
}

/// What becomes of one configured server.
pub enum Revision {
    /// Replaced by this server.
    Modify(PiServer),
    Delete,
    Keep,
}

/// The revision for the server at `i`; a server without one is kept.
pub open spec fn revision_at(revs: Seq<Revision>, i: int) -> Revision {
    if 0 <= i < revs.len() {
        revs[i]
    } else {
        Revision::Keep
    }
}

/// What one server becomes under a revision.
pub open spec fn revised_one(s: PiServer, rev: Revision) -> Seq<PiServer> {
    match rev {
        Revision::Modify(n) => seq![n],
        Revision::Delete => seq![],
        Revision::Keep => seq![s],
    }
}

/// The servers at `i` and after, each revised.
pub open spec fn revised_from(servers: Seq<PiServer>, revs: Seq<Revision>, i: int) -> Seq<
    PiServer,
>
    decreases servers.len() - i,
{
    if i < 0 || i >= servers.len() {
        seq![]
    } else {
        revised_one(servers[i], revision_at(revs, i)) + revised_from(servers, revs, i + 1)
    }
}

/// The server list after each server got its revision, in the order of the
/// list.
pub fn revise_servers(servers: Vec<PiServer>, revisions: Vec<Revision>) -> (r: Vec<PiServer>)
    ensures
        r@ == revised_from(servers@, revisions@, 0),
{
    let ghost all = servers@;
    let ghost revs = revisions@;
    let n = servers.len();
    let mut rest = servers;
    let mut pending = revisions;
    let mut out: Vec<PiServer> = Vec::new();
    let mut i: usize = 0;
    while i < n
        invariant
            n == all.len(),
            i <= n,
            rest@ == all.subrange(i as int, n as int),
            pending@ == if i <= revs.len() {
                revs.subrange(i as int, revs.len() as int)
            } else {
                Seq::<Revision>::empty()
            },
            out@ + revised_from(all, revs, i as int) == revised_from(all, revs, 0),
        decreases n - i,
    {
        let s = rest.remove(0);
        let rev = if pending.len() > 0 {
            pending.remove(0)
        } else {
            Revision::Keep
        };
        assert(rev == revision_at(revs, i as int));
        let ghost before = out@;
        match rev {
            Revision::Modify(m) => out.push(m),
            Revision::Delete => {},
            Revision::Keep => out.push(s),
        }
        assert(out@ =~= before + revised_one(all[i as int], revision_at(revs, i as int)));
        assert(before + revised_from(all, revs, i as int) =~= out@ + revised_from(
            all,
            revs,
            i + 1,
        ));
        i = i + 1;
    }
    assert(revised_from(all, revs, n as int) =~= Seq::<PiServer>::empty());
    assert(out@ =~= out@ + revised_from(all, revs, n as int));
    out
}

/// Appends the new servers, in the order they were entered.
pub fn add_new_servers(conf: &mut PiConfig, entries: Vec<PiServer>)
    ensures
        final(conf).servers@ == old(conf).servers@ + entries@,
{
    let ghost start = conf.servers@;
    let n = entries.len();
    let mut rest = entries;
    let mut i: usize = 0;
    while i < n
        invariant
            n == rest@.len() + i,
            conf.servers@ + rest@ == start + entries@,
        decreases n - i,
    {
        let ghost before = conf.servers@;
        let s = rest.remove(0);
        conf.add_server(s);
        assert(conf.servers@ + rest@ =~= before + (seq![s] + rest@));
        i = i + 1;
    }
    assert(conf.servers@ =~= conf.servers@ + rest@);
}

} // verus!
