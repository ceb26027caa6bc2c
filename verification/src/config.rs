//! Static configuration and the upstream dispatcher: an immutable value
//! built once at startup, mapping each registered protocol to its
//! configured upstream address, if any. Addresses are carried as plain
//! `host:port` strings; the I/O shell parses and dials them.

use vstd::prelude::*;

use crate::detect::{Protocol, PROTOCOL_COUNT};

verus! {

/// Detection-phase timeout applied when none is configured, in
/// milliseconds.
pub const DEFAULT_TIMEOUT_MS: u64 = 1000;

/// The immutable startup configuration, shared read-only by every
/// connection; nothing mutates it after construction.
pub struct Config {
    listen_addr: String,
    timeout_ms: u64,
    upstreams: Vec<Option<String>>,
}

impl Config {
    /// The `host:port` address the demultiplexer listens on, as a
    /// character sequence.
    pub closed spec fn spec_listen_addr(self) -> Seq<char> {
        self.listen_addr@
    }

    /// Detection-phase timeout in milliseconds. It applies only while
    /// classifying; a classified, relaying connection has no deadline.
    pub closed spec fn spec_timeout_ms(self) -> u64 {
        self.timeout_ms
    }

    /// The `host:port` address the demultiplexer listens on.
    pub fn listen_addr(&self) -> (r: &String)
        ensures
            r@ == self.spec_listen_addr(),
    {
        &self.listen_addr
    }

    /// Detection-phase timeout in milliseconds.
    pub fn timeout_ms(&self) -> (r: u64)
        ensures
            r == self.spec_timeout_ms(),
    {
        self.timeout_ms
    }
    /// The configured upstream address for a protocol, if any, as a
    /// character sequence.
    pub closed spec fn spec_upstream(self, p: Protocol) -> Option<Seq<char>> {
        match self.upstreams@[p.spec_index()] {
            Some(addr) => Some(addr@),
            None => None,
        }
    }

    /// Well-formedness: one upstream slot per registered protocol.
    pub closed spec fn wf(self) -> bool {
        self.upstreams@.len() == PROTOCOL_COUNT
    }

    /// Builds a configuration with no upstream routes yet.
    pub fn new(listen_addr: String, timeout_ms: u64) -> (c: Config)
        ensures
            c.wf(),
            c.spec_listen_addr() == listen_addr@,
            c.spec_timeout_ms() == timeout_ms,
            forall|p: Protocol| c.spec_upstream(p) is None,
    {
        let mut upstreams: Vec<Option<String>> = Vec::new();
        upstreams.push(None);
        upstreams.push(None);
        upstreams.push(None);
        upstreams.push(None);
        let c = Config { listen_addr, timeout_ms, upstreams };
        proof {
            assert(forall|p: Protocol| 0 <= #[trigger] p.spec_index() < 4);
            assert(forall|p: Protocol| c.upstreams@[p.spec_index()] is None);
        }
        c
    }

    /// Records the upstream address for one protocol; routes for the
    /// other protocols are unchanged.
    pub fn set_upstream(&mut self, p: Protocol, addr: String)
        requires
            old(self).wf(),
        ensures
            final(self).wf(),
            final(self).spec_upstream(p) == Some(addr@),
            forall|q: Protocol| q != p ==> final(self).spec_upstream(q) == old(
                self,
            ).spec_upstream(q),
            final(self).spec_listen_addr() == old(self).spec_listen_addr(),
            final(self).spec_timeout_ms() == old(self).spec_timeout_ms(),
    {
        let i = p.index();
        self.upstreams.set(i, Some(addr));
        proof {
            assert(forall|q: Protocol| q != p ==> #[trigger] q.spec_index() != p.spec_index());
        }
    }

    /// The upstream dispatcher: a pure lookup of the configured upstream
    /// address for a classified protocol. `None` means no route is
    /// configured; the caller drops the connection — it never retries,
    /// never guesses a default.
    pub fn upstream_for(&self, p: Protocol) -> (r: Option<String>)
        requires
            self.wf(),
        ensures
            match r {
                Some(addr) => self.spec_upstream(p) == Some(addr@),
                None => self.spec_upstream(p) is None,
            },
    {
        let i = p.index();
        match &self.upstreams[i] {
            Some(addr) => Some(addr.clone()),
            None => None,
        }
    }
}

} // verus!
