use upstream::address::{IpAddress, SocketAddress};
use upstream::config::UpstreamConfig;
use upstream::dns_resolver::DnsResolver;
use upstream::{ConnectError, TcpUpstream, TcpUpstreamKind, Upstream, UpstreamAddress, UpstreamKind};

#[test]
fn upstream_from_config() {
    let resolver = DnsResolver::tokio();
    let u = Upstream::try_from_config(UpstreamConfig { domain: String::from("example.org"), port: 443 }, resolver);
    let UpstreamKind::Tcp(tcp) = u.kind();
    assert_eq!(tcp.addr(), UpstreamAddress { domain: "example.org", port: 443 });
    assert_eq!(tcp.resolver(), resolver);
    assert_eq!(tcp.kind(), TcpUpstreamKind::Plain);
}

#[test]
fn constructors_keep_their_parts() {
    let addr = UpstreamAddress::new("host", 22);
    assert_eq!(addr.domain, "host");
    assert_eq!(addr.port, 22);
    let tcp = TcpUpstream::plain(addr, DnsResolver::tokio());
    assert_eq!(tcp.addr(), addr);
    assert_eq!(Upstream::tcp(tcp).kind(), UpstreamKind::Tcp(tcp));
}

#[test]
fn the_first_resolved_address_is_used() {
    let first = SocketAddress::new(IpAddress::V4(1), 80);
    let second = SocketAddress::new(IpAddress::V6(2), 80);
    assert_eq!(TcpUpstream::pick_address(&vec![first, second]), Ok(first));
}

#[test]
fn no_resolved_address_is_an_error() {
    let r = TcpUpstream::pick_address(&vec![]);
    assert_eq!(r, Err(ConnectError::Unresolved));
    assert_eq!(ConnectError::Unresolved.message(), "Failed to resolve upstream domain");
}
