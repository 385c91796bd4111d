//! The list of configured servers.

use vstd::prelude::*;
use crate::text::{strip_trailing_slashes, trim_trailing_slashes};

verus! {

/// The configuration: the servers in the order they were registered.
pub struct PiConfig {
    pub servers: Vec<PiServer>,
}

/// One server: its base URL, without trailing `/`, and its credential (an
/// API key for the legacy dialect, the web password for the session one).
pub struct PiServer {
    pub base_url: String,
    pub api_key: String,
}

/// Why a configuration could not be read or written.
pub enum FromPath {
    IOError(String),
    FileNotFound(String),
    SerError(String),
}

impl PiServer {
    /// A base URL that is not empty and has no trailing `/`.
    pub open spec fn wf(&self) -> bool {
        &&& self.base_url@.len() > 0
        &&& strip_trailing_slashes(self.base_url@) == self.base_url@
    }

    /// A record; the base URL must hold more than slashes.
    pub fn new(base_url: &str, api_key: &str) -> (r: Self)
        requires
            strip_trailing_slashes(base_url@).len() > 0,
        ensures
            r.base_url@ == strip_trailing_slashes(base_url@),
            r.api_key@ == api_key@,
            r.wf(),
    {
        let base = trim_trailing_slashes(base_url);
        proof {
            lemma_strip_idempotent(base_url@);
        }
        PiServer { base_url: base, api_key: api_key.to_owned() }
    }
}

/// Stripping the trailing slashes twice strips nothing more.
pub proof fn lemma_strip_idempotent(s: Seq<char>)
    ensures
        strip_trailing_slashes(strip_trailing_slashes(s)) == strip_trailing_slashes(s),
    decreases s.len(),
{
    if s.len() > 0 && s.last() == '/' {
        lemma_strip_idempotent(s.drop_last());
    }
}

impl PiConfig {
    pub fn new() -> (r: Self)
        ensures
            r.servers@.len() == 0,
    {
        PiConfig { servers: Vec::new() }
    }

    /// Appends a server after those already registered.
    pub fn add_server(&mut self, server: PiServer)
        ensures
            final(self).servers@ == old(self).servers@.push(server),
    {
        self.servers.push(server);
    }
}

} // verus!
