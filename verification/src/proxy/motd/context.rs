//! The decisions of a status exchange: which upstream it needs, and what it
//! reports when done.
use vstd::prelude::*;

use crate::proxy::config::types::{MotdConfig, MotdFaviconMode, MotdMode, StatusPingMode};

verus! {

/// What a finished status exchange reports: the bytes of the ping request
/// and of the pong, the pong's payload and the upstream's measured ping.
#[derive(Clone, Copy, Debug, PartialEq, Eq, Structural)]
pub struct StatusOutcome {
    pub ping_request_bytes: usize,
    pub pong_bytes: usize,
    pub pong_payload: Option<u64>,
    pub upstream_ping_ms: Option<u32>,
}

impl Default for StatusOutcome {
    /// An exchange that answered no ping.
    fn default() -> (o: Self)
        ensures
            o.ping_request_bytes == 0,
            o.pong_bytes == 0,
            o.pong_payload is None,
            o.upstream_ping_ms is None,
    {
        StatusOutcome { ping_request_bytes: 0, pong_bytes: 0, pong_payload: None, upstream_ping_ms: None }
    }
}

/// The first of `a` and `b` that is set.
pub open spec fn spec_or(a: Option<String>, b: Option<String>) -> Option<Seq<char>> {
    match a {
        Some(x) => Some(x@),
        None => match b {
            Some(y) => Some(y@),
            None => None,
        },
    }
}

/// `res` is the address `expected`.
pub open spec fn addr_is(res: Option<&str>, expected: Option<Seq<char>>) -> bool {
    match expected {
        Some(e) => res matches Some(r) && r@ == e,
        None => res is None,
    }
}

/// The upstream a status exchange must open, given its settings.
pub open spec fn spec_upstream_target(c: MotdConfig) -> Option<Seq<char>> {
    if c.mode == MotdMode::Upstream {
        match c.upstream_addr {
            Some(a) => Some(a@),
            None => None,
        }
    } else if c.favicon.mode == MotdFaviconMode::Passthrough {
        spec_or(c.favicon.target_addr, c.upstream_addr)
    } else if c.ping_mode == StatusPingMode::Passthrough {
        spec_or(c.ping.target_addr, c.upstream_addr)
    } else {
        None
    }
}

/// Which upstream a status exchange opens. With the upstream's own status it
/// is the upstream address; else, where the icon is passed through, it is the
/// icon's target (what `favicon_target_addr` gives): the icon target where one
/// is set, the upstream address otherwise; else, where pings are passed
/// through, the ping target, falling back to the upstream address in the same
/// way; and else no upstream at all.
pub proof fn lemma_upstream_target_choice(c: MotdConfig)
    ensures
        c.mode == MotdMode::Upstream ==> spec_upstream_target(c) == (match c.upstream_addr {
            Some(u) => Some(u@),
            None => None::<Seq<char>>,
        }),
        c.mode != MotdMode::Upstream && c.favicon.mode == MotdFaviconMode::Passthrough
            ==> spec_upstream_target(c) == spec_or(c.favicon.target_addr, c.upstream_addr),
        c.mode != MotdMode::Upstream && c.favicon.mode == MotdFaviconMode::Passthrough
            ==> spec_upstream_target(c) == (match c.favicon.target_addr {
            Some(f) => Some(f@),
            None => match c.upstream_addr {
                Some(u) => Some(u@),
                None => None::<Seq<char>>,
            },
        }),
        c.mode != MotdMode::Upstream && c.favicon.mode != MotdFaviconMode::Passthrough
            && c.ping_mode == StatusPingMode::Passthrough ==> spec_upstream_target(c) == (
        match c.ping.target_addr {
            Some(p) => Some(p@),
            None => match c.upstream_addr {
                Some(u) => Some(u@),
                None => None::<Seq<char>>,
            },
        }),
        c.mode != MotdMode::Upstream && c.favicon.mode != MotdFaviconMode::Passthrough
            && c.ping_mode != StatusPingMode::Passthrough ==> spec_upstream_target(c) is None,
{
}

fn first_set<'a>(a: &'a Option<String>, b: &'a Option<String>) -> (res: Option<&'a str>)
    ensures
        addr_is(res, spec_or(*a, *b)),
{
    match a {
        Some(x) => Some(x.as_str()),
        None => match b {
            Some(y) => Some(y.as_str()),
            None => None,
        },
    }
}

/// The status settings a status exchange decides on.
pub struct StatusContext<'a> {
    config: &'a MotdConfig,
}

impl<'a> StatusContext<'a> {
    pub closed spec fn spec_config(&self) -> MotdConfig {
        *self.config
    }

    pub fn new(config: &'a MotdConfig) -> (c: Self)
        ensures
            c.spec_config() == *config,
    {
        StatusContext { config }
    }

    /// Where pings go: the ping target, else the upstream.
    pub fn ping_target_addr(&self) -> (res: Option<&'a str>)
        ensures
            addr_is(res, spec_or(self.spec_config().ping.target_addr, self.spec_config().upstream_addr)),
    {
        first_set(&self.config.ping.target_addr, &self.config.upstream_addr)
    }

    /// Where the icon comes from: the icon target, else the upstream.
    pub fn favicon_target_addr(&self) -> (res: Option<&'a str>)
        ensures
            addr_is(
                res,
                spec_or(self.spec_config().favicon.target_addr, self.spec_config().upstream_addr),
            ),
    {
        first_set(&self.config.favicon.target_addr, &self.config.upstream_addr)
    }

    /// The icon is the upstream's.
    pub fn should_passthrough_favicon(&self) -> (b: bool)
        ensures
            b == (self.spec_config().favicon.mode == MotdFaviconMode::Passthrough),
    {
        self.config.favicon.mode == MotdFaviconMode::Passthrough
    }

    /// The response needs the upstream's status: it is the upstream's, or
    /// its icon is.
    pub fn status_response_needs_upstream(&self) -> (b: bool)
        ensures
            b == (self.spec_config().mode == MotdMode::Upstream || self.spec_config().favicon.mode
                == MotdFaviconMode::Passthrough),
    {
        self.config.mode == MotdMode::Upstream || self.should_passthrough_favicon()
    }

    /// Pings are answered by the upstream.
    pub fn needs_upstream_ping(&self) -> (b: bool)
        ensures
            b == (self.spec_config().ping_mode == StatusPingMode::Passthrough),
    {
        self.config.ping_mode == StatusPingMode::Passthrough
    }

    /// The upstream the exchange opens: the upstream of an upstream status,
    /// else the icon's target when the icon is passed through, else the ping
    /// target when pings are; none otherwise.
    pub fn upstream_target_addr(&self) -> (res: Option<&'a str>)
        ensures
            addr_is(res, spec_upstream_target(self.spec_config())),
    {
        if self.config.mode == MotdMode::Upstream {
            match &self.config.upstream_addr {
                Some(a) => Some(a.as_str()),
                None => None,
            }
        } else if self.should_passthrough_favicon() {
            self.favicon_target_addr()
        } else if self.config.ping_mode == StatusPingMode::Passthrough {
            self.ping_target_addr()
        } else {
            None
        }
    }

    /// The address the upstream handshake names: the configured upstream
    /// where there is a non-empty one, else `target_addr`.
    pub fn rewrite_addr<'b>(&'b self, target_addr: &'b str) -> (res: &'b str)
        ensures
            res@ == match self.spec_config().upstream_addr {
                Some(u) => if u@.len() > 0 {
                    u@
                } else {
                    target_addr@
                },
                None => target_addr@,
            },
    {
        match &self.config.upstream_addr {
            Some(u) => if u.as_str().unicode_len() > 0 {
                u.as_str()
            } else {
                target_addr
            },
            None => target_addr,
        }
    }
}

} // verus!
