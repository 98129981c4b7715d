//! Upstreams: the servers that a host forwards its connections to.
use vstd::prelude::*;

use crate::address::SocketAddress;
use crate::config::UpstreamConfig;
use crate::dns_resolver::DnsResolver;

verus! {

/// The domain and port of an upstream, before resolution.
#[derive(Clone, Copy, Debug, PartialEq, Eq)]
pub struct UpstreamAddress {
    pub domain: &'static str,
    pub port: u16,
}

impl UpstreamAddress {
    pub fn new(domain: &'static str, port: u16) -> (r: UpstreamAddress)
        ensures
            r.domain == domain,
            r.port == port,
    {
        UpstreamAddress { domain, port }
    }
}

/// How a TCP upstream is spoken to.
#[derive(Clone, Copy, Debug, PartialEq, Eq)]
pub enum TcpUpstreamKind {
    Plain,
}

/// An upstream reached over TCP.
#[derive(Clone, Copy, Debug, PartialEq, Eq)]
pub struct TcpUpstream {
    addr: UpstreamAddress,
    resolver: DnsResolver,
    kind: TcpUpstreamKind,
}

impl TcpUpstream {
    pub closed spec fn addr_view(self) -> UpstreamAddress {
        self.addr
    }

    pub closed spec fn resolver_view(self) -> DnsResolver {
        self.resolver
    }

    pub closed spec fn kind_view(self) -> TcpUpstreamKind {
        self.kind
    }

    pub fn plain(addr: UpstreamAddress, resolver: DnsResolver) -> (r: TcpUpstream)
        ensures
            r.addr_view() == addr,
            r.resolver_view() == resolver,
            r.kind_view() == TcpUpstreamKind::Plain,
    {
        TcpUpstream { addr, resolver, kind: TcpUpstreamKind::Plain }
    }

    pub fn addr(&self) -> (r: UpstreamAddress)
        ensures
            r == self.addr_view(),
    {
        self.addr
    }

    pub fn resolver(&self) -> (r: DnsResolver)
        ensures
            r == self.resolver_view(),
    {
        self.resolver
    }

    pub fn kind(&self) -> (r: TcpUpstreamKind)
        ensures
            r == self.kind_view(),
    {
        self.kind
    }

    /// The address to connect to, out of those that the upstream's domain
    /// resolved to: the first one; it is an error when there is none.
    pub fn pick_address(resolved: &Vec<SocketAddress>) -> (r: Result<SocketAddress, ConnectError>)
        ensures
            resolved@.len() > 0 ==> r == Ok::<SocketAddress, ConnectError>(resolved@[0]),
            resolved@.len() == 0 ==> r == Err::<SocketAddress, ConnectError>(ConnectError::Unresolved),
    {
        if resolved.len() == 0 {
            Err(ConnectError::Unresolved)
        } else {
            Ok(resolved[0])
        }
    }
}

/// Why connecting to an upstream failed before any connection was tried.
#[derive(Clone, Copy, Debug, PartialEq, Eq, Structural)]
pub enum ConnectError {
    /// The upstream's domain resolved to no address.
    Unresolved,
}

impl ConnectError {
    /// The error's message.
    pub fn message(&self) -> (r: &'static str)
        ensures
            r@ == "Failed to resolve upstream domain"@,
    {
        "Failed to resolve upstream domain"
    }
}

/// The upstream that a configuration describes is a plain TCP upstream to
/// that configuration's own domain and port, resolved with the very resolver
/// it was given (Hickory's as well as Tokio's).
pub proof fn lemma_upstream_from_config(u: Upstream, config: UpstreamConfig, resolver: DnsResolver)
    requires
        u.is_from_config(config, resolver),
    ensures
        u.kind_view() matches UpstreamKind::Tcp(t) && t.resolver_view() == resolver
            && t.addr_view().port == config.port && t.addr_view().domain@ == config.domain@
            && t.kind_view() == TcpUpstreamKind::Plain,
{
}

/// Turns an owned domain into one that lives as long as the process, by
/// calling `String::leak`: the characters stay the same.
#[verifier::external_body]
fn leak_domain(domain: String) -> (r: &'static str)
    ensures
        r@ == domain@,
{
    domain.leak()
}

/// The kinds of upstream.
#[derive(Clone, Copy, Debug, PartialEq, Eq)]
pub enum UpstreamKind {
    Tcp(TcpUpstream),
}

/// An upstream server.
#[derive(Clone, Copy, Debug, PartialEq, Eq)]
pub struct Upstream {
    kind: UpstreamKind,
}

impl Upstream {
    pub closed spec fn kind_view(self) -> UpstreamKind {
        self.kind
    }

    pub fn tcp(upstream: TcpUpstream) -> (r: Upstream)
        ensures
            r.kind_view() == UpstreamKind::Tcp(upstream),
    {
        Upstream { kind: UpstreamKind::Tcp(upstream) }
    }

    pub fn kind(&self) -> (r: UpstreamKind)
        ensures
            r == self.kind_view(),
    {
        self.kind
    }

    /// Whether this is the upstream that `config` describes, resolved with `resolver`.
    pub open spec fn is_from_config(self, config: UpstreamConfig, resolver: DnsResolver) -> bool {
        match self.kind_view() {
            UpstreamKind::Tcp(t) => {
                &&& t.addr_view().domain@ == config.domain@
                &&& t.addr_view().port == config.port
                &&& t.resolver_view() == resolver
                &&& t.kind_view() == TcpUpstreamKind::Plain
            },
        }
    }

    /// The plain TCP upstream that `config` describes. Its domain is kept
    /// for the rest of the process.
    pub fn try_from_config(config: UpstreamConfig, resolver: DnsResolver) -> (r: Upstream)
        ensures
            r.is_from_config(config, resolver),
            r.kind_view() matches UpstreamKind::Tcp(t) && t.resolver_view() == resolver
                && t.addr_view().port == config.port && t.addr_view().domain@ == config.domain@
                && t.kind_view() == TcpUpstreamKind::Plain,
    {
        let port = config.port;
        let domain = leak_domain(config.domain);
        Upstream::tcp(TcpUpstream::plain(UpstreamAddress::new(domain, port), resolver))
    }
}

} // verus!
