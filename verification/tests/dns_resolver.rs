use upstream::address::{IpAddress, SocketAddress};
use upstream::config::DnsResolverConfig;
use upstream::dns_resolver::{
    DnsResolver, GlobalHickoryDnsResolver, GlobalResolverError, ResolverSlot,
};

fn build_system_resolver() -> Result<hickory_resolver::TokioResolver, hickory_resolver::ResolveError> {
    hickory_resolver::TokioResolver::builder_tokio().map(|builder| builder.build())
}

#[test]
fn should_only_be_created_once() {
    let mut slot = ResolverSlot::new();
    let _ = GlobalHickoryDnsResolver::new(&mut slot, build_system_resolver).expect("Must be created");
    let _ = GlobalHickoryDnsResolver::new(&mut slot, build_system_resolver).expect_err("Must not be created");
}

#[test]
fn second_creation_does_not_build() {
    let mut slot: ResolverSlot<u32> = ResolverSlot::new();
    assert!(!slot.initialized());
    let first = GlobalHickoryDnsResolver::new(&mut slot, || Ok::<u32, &str>(7));
    assert!(first.is_ok());
    assert!(slot.initialized());
    assert_eq!(*slot.get(), 7);
    let mut called = false;
    let second = GlobalHickoryDnsResolver::new(&mut slot, || {
        called = true;
        Ok::<u32, &str>(8)
    });
    assert!(matches!(second, Err(GlobalResolverError::AlreadyInitialized)));
    assert!(!called);
    assert_eq!(*slot.get(), 7);
}

#[test]
fn failed_build_leaves_the_slot_empty() {
    let mut slot: ResolverSlot<u32> = ResolverSlot::new();
    let first = GlobalHickoryDnsResolver::new(&mut slot, || Err::<u32, &str>("no configuration"));
    assert!(matches!(first, Err(GlobalResolverError::Build("no configuration"))));
    assert!(!slot.initialized());
    let second = GlobalHickoryDnsResolver::new(&mut slot, || Ok::<u32, &str>(3));
    assert!(second.is_ok());
    assert_eq!(*slot.get(), 3);
}

#[test]
fn init_keeps_the_first_resolver() {
    let mut slot: ResolverSlot<u32> = ResolverSlot::new();
    slot.init(1);
    slot.init(2);
    assert_eq!(*slot.get(), 1);
}

#[test]
fn resolver_from_config() {
    let mut slot: ResolverSlot<u32> = ResolverSlot::new();
    let tokio = DnsResolver::from_config(DnsResolverConfig::Tokio, &mut slot, || Ok::<u32, &str>(1)).unwrap();
    assert!(matches!(tokio, DnsResolver::Tokio(_)));
    assert!(!slot.initialized());
    let hickory = DnsResolver::from_config(DnsResolverConfig::Hickory, &mut slot, || Ok::<u32, &str>(1)).unwrap();
    assert!(matches!(hickory, DnsResolver::Hickory(_)));
    assert!(slot.initialized());
    let again = DnsResolver::hickory(&mut slot, || Ok::<u32, &str>(2));
    assert!(matches!(again, Err(GlobalResolverError::AlreadyInitialized)));
    assert_eq!(DnsResolver::tokio(), tokio);
}

#[test]
fn lookup_results_get_the_port() {
    let ips = vec![IpAddress::V4(0x7f00_0001), IpAddress::V6(1), IpAddress::V4(0x0a00_0002)];
    let addrs = DnsResolver::with_port(&ips, 8443);
    assert_eq!(
        addrs,
        vec![
            SocketAddress { ip: IpAddress::V4(0x7f00_0001), port: 8443, flowinfo: 0, scope_id: 0 },
            SocketAddress { ip: IpAddress::V6(1), port: 8443, flowinfo: 0, scope_id: 0 },
            SocketAddress { ip: IpAddress::V4(0x0a00_0002), port: 8443, flowinfo: 0, scope_id: 0 },
        ]
    );
    assert!(DnsResolver::with_port(&vec![], 80).is_empty());
}
