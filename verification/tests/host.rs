use upstream::address::{IpAddress, SocketAddress};
use upstream::config::UpstreamConfig;
use upstream::dns_resolver::DnsResolver;
use upstream::host::{load_balancer_for, Host, HostBuildError, HostKind, TcpHost, TcpHostKind};
use upstream::{LoadBalancer, UpstreamAddress, UpstreamKind};

fn config(domain: &str, port: u16) -> UpstreamConfig {
    UpstreamConfig { domain: String::from(domain), port }
}

fn address_of(u: upstream::Upstream) -> UpstreamAddress {
    let UpstreamKind::Tcp(tcp) = u.kind();
    tcp.addr()
}

#[test]
fn a_host_without_upstreams_is_refused() {
    assert_eq!(load_balancer_for(vec![], DnsResolver::tokio()).err(), Some(HostBuildError::NoUpstreams));
}

#[test]
fn one_upstream_is_used_for_every_connection() {
    let mut lb = load_balancer_for(vec![config("one", 1)], DnsResolver::tokio()).unwrap();
    assert!(matches!(lb, LoadBalancer::Identity(_)));
    for _ in 0..3 {
        assert_eq!(address_of(lb.next().unwrap()), UpstreamAddress { domain: "one", port: 1 });
    }
}

#[test]
fn several_upstreams_are_used_in_turn() {
    let mut lb = load_balancer_for(vec![config("a", 1), config("b", 2), config("c", 3)], DnsResolver::tokio()).unwrap();
    assert!(matches!(lb, LoadBalancer::StaticFifo(_)));
    let domains: Vec<&str> = (0..6).map(|_| address_of(lb.next().unwrap()).domain).collect();
    assert_eq!(domains, vec!["a", "b", "c", "a", "b", "c"]);
}

#[test]
fn hosts_keep_their_parts() {
    let addr = SocketAddress::new(IpAddress::V4(0), 8080);
    let lb = load_balancer_for(vec![config("a", 1)], DnsResolver::tokio()).unwrap();
    let host = Host::tcp(TcpHost::plain(addr, lb));
    let HostKind::Tcp(tcp) = host.into_kind();
    let (a, mut lb, kind) = tcp.into_parts();
    assert_eq!(a, addr);
    assert!(matches!(kind, TcpHostKind::Plain));
    assert!(lb.next().is_some());
}
