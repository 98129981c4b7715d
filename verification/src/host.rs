//! Hosts: listening addresses whose accepted connections are forwarded to
//! the upstreams that their load balancer names.
use vstd::prelude::*;

use crate::address::SocketAddress;
use crate::config::UpstreamConfig;
use crate::dns_resolver::DnsResolver;
use crate::load_balancer::LoadBalancer;
use crate::provider::TlsServerConfigProvider;
use crate::upstream::{Upstream, UpstreamKind};

verus! {

/// Whether a host serves plain TCP, or terminates TLS with the configuration
/// that its provider gives.
pub enum TcpHostKind {
    Plain,
    Tls(TlsServerConfigProvider),
}

/// A host that accepts TCP connections on `addr`.
///
/// Its load balancer always emits an upstream, so that every accepted
/// connection has somewhere to go.
pub struct TcpHost {
    addr: SocketAddress,
    load_balancer: LoadBalancer,
    kind: TcpHostKind,
}

impl TcpHost {
    #[verifier::type_invariant]
    spec fn balancer_is_productive(self) -> bool {
        self.load_balancer.is_productive()
    }

    pub closed spec fn addr_view(self) -> SocketAddress {
        self.addr
    }

    pub closed spec fn load_balancer_view(self) -> LoadBalancer {
        self.load_balancer
    }

    pub closed spec fn kind_view(self) -> TcpHostKind {
        self.kind
    }

    pub fn plain(addr: SocketAddress, load_balancer: LoadBalancer) -> (r: TcpHost)
        requires
            load_balancer.is_productive(),
        ensures
            r.addr_view() == addr,
            r.load_balancer_view() == load_balancer,
            r.kind_view() is Plain,
    {
        TcpHost { addr, load_balancer, kind: TcpHostKind::Plain }
    }

    pub fn tls(addr: SocketAddress, load_balancer: LoadBalancer, provider: TlsServerConfigProvider) -> (r:
        TcpHost)
        requires
            load_balancer.is_productive(),
        ensures
            r.addr_view() == addr,
            r.load_balancer_view() == load_balancer,
            r.kind_view() == TcpHostKind::Tls(provider),
    {
        TcpHost { addr, load_balancer, kind: TcpHostKind::Tls(provider) }
    }

    /// The address, the load balancer (which always emits an upstream) and
    /// the kind, for running the host.
    pub fn into_parts(self) -> (r: (SocketAddress, LoadBalancer, TcpHostKind))
        ensures
            r.0 == self.addr_view(),
            r.1 == self.load_balancer_view(),
            r.1.is_productive(),
            r.2 == self.kind_view(),
    {
        proof {
            use_type_invariant(&self);
        }
        let TcpHost { addr, load_balancer, kind } = self;
        (addr, load_balancer, kind)
    }
}

/// The kinds of host.
pub enum HostKind {
    Tcp(TcpHost),
}

/// A listening host.
pub struct Host {
    kind: HostKind,
}

impl Host {
    pub closed spec fn kind_view(self) -> HostKind {
        self.kind
    }

    pub fn tcp(host: TcpHost) -> (r: Host)
        ensures
            r.kind_view() == HostKind::Tcp(host),
    {
        Host { kind: HostKind::Tcp(host) }
    }

    pub fn into_kind(self) -> (r: HostKind)
        ensures
            r == self.kind_view(),
    {
        self.kind
    }
}

/// Why a host could not be built from its configuration.
#[derive(Clone, Copy, Debug, PartialEq, Eq, Structural)]
pub enum HostBuildError {
    /// The host names no upstream.
    NoUpstreams,
}

/// Whether `lb` cycles, from its start, through the upstreams that `configs`
/// describe, in order, each resolved with `resolver`.
pub open spec fn balances_configs(lb: LoadBalancer, configs: Seq<UpstreamConfig>, resolver: DnsResolver) -> bool {
    &&& lb.ring().len() == configs.len()
    &&& lb.position() == 0
    &&& forall|i: int| 0 <= i < configs.len() ==> #[trigger] lb.ring()[i].is_from_config(configs[i], resolver)
}

/// A balancer built from upstream configurations holds, at each position `i`,
/// the upstream to the domain and port of the `i`-th configuration itself,
/// resolved with the given resolver; its `k`-th call emits the upstream of
/// configuration `k % n`.
pub proof fn lemma_balancer_follows_configs(
    lb: LoadBalancer,
    configs: Seq<UpstreamConfig>,
    resolver: DnsResolver,
    i: int,
    k: nat,
)
    requires
        balances_configs(lb, configs, resolver),
        0 <= i < configs.len(),
    ensures
        (lb.ring()[i].kind_view() matches UpstreamKind::Tcp(t) && t.addr_view().domain@
            == configs[i].domain@ && t.addr_view().port == configs[i].port
            && t.resolver_view() == resolver),
        lb.nth(k) == Some(lb.ring()[(k % configs.len()) as int]),
        (lb.ring()[(k % configs.len()) as int].kind_view() matches UpstreamKind::Tcp(t)
            && t.addr_view().domain@ == configs[(k % configs.len()) as int].domain@
            && t.addr_view().port == configs[(k % configs.len()) as int].port),
{
    crate::upstream::lemma_upstream_from_config(lb.ring()[i], configs[i], resolver);
    let n = configs.len() as int;
    vstd::arithmetic::div_mod::lemma_mod_pos_bound(k as int, n);
    let j = (k % configs.len()) as int;
    crate::upstream::lemma_upstream_from_config(lb.ring()[j], configs[j], resolver);
}

/// Lets a vector of upstreams live as long as the process, by calling
/// `Vec::leak`: the elements stay the same, in the same order.
#[verifier::external_body]
fn leak_upstreams(upstreams: Vec<Upstream>) -> (r: &'static [Upstream])
    ensures
        r@ == upstreams@,
{
    upstreams.leak()
}

/// The load balancer of a host with the upstreams `configs`: none is an
/// error; one upstream is always used; several are used in turn.
pub fn load_balancer_for(configs: Vec<UpstreamConfig>, resolver: DnsResolver) -> (r: Result<
    LoadBalancer,
    HostBuildError,
>)
    ensures
        configs@.len() == 0 <==> r == Err::<LoadBalancer, HostBuildError>(HostBuildError::NoUpstreams),
        configs@.len() == 1 ==> (r matches Ok(lb) && lb is Identity),
        configs@.len() > 1 ==> (r matches Ok(lb) && lb is StaticFifo),
        r matches Ok(lb) ==> lb.is_productive() && balances_configs(lb, configs@, resolver),
        r matches Ok(lb) ==> forall|i: int|
            0 <= i < configs@.len() ==> ((#[trigger] lb.ring()[i]).kind_view() matches UpstreamKind::Tcp(t)
                && t.addr_view().domain@ == configs@[i].domain@
                && t.addr_view().port == configs@[i].port && t.resolver_view() == resolver),
{
    let n = configs.len();
    if n == 0 {
        return Err(HostBuildError::NoUpstreams);
    }
    if n == 1 {
        let c = &configs[0];
        let upstream = Upstream::try_from_config(
            UpstreamConfig { domain: c.domain.clone(), port: c.port },
            resolver,
        );
        let lb = LoadBalancer::identity(upstream);
        assert(lb.ring()[0].is_from_config(configs@[0], resolver));
        proof {
            crate::upstream::lemma_upstream_from_config(lb.ring()[0], configs@[0], resolver);
        }
        return Ok(lb);
    }
    let mut upstreams: Vec<Upstream> = Vec::new();
    let mut i: usize = 0;
    while i < n
        invariant
            n == configs@.len(),
            i <= n,
            upstreams@.len() == i,
            forall|j: int| 0 <= j < i ==> #[trigger] upstreams@[j].is_from_config(configs@[j], resolver),
        decreases n - i,
    {
        let c = &configs[i];
        let upstream = Upstream::try_from_config(
            UpstreamConfig { domain: c.domain.clone(), port: c.port },
            resolver,
        );
        upstreams.push(upstream);
        i = i + 1;
    }
    let lb = LoadBalancer::static_fifo(leak_upstreams(upstreams));
    proof {
        assert forall|j: int| 0 <= j < configs@.len() implies ((#[trigger] lb.ring()[j]).kind_view() matches UpstreamKind::Tcp(t)
            && t.addr_view().domain@ == configs@[j].domain@
            && t.addr_view().port == configs@[j].port && t.resolver_view() == resolver) by {
            crate::upstream::lemma_upstream_from_config(lb.ring()[j], configs@[j], resolver);
        }
    }
    Ok(lb)
}

} // verus!
