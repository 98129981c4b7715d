//! Choice of DNS resolver, and the pure part of resolving an upstream's domain.
use vstd::prelude::*;

use crate::address::{IpAddress, SocketAddress};
use crate::config::DnsResolverConfig;

verus! {

/// The place of the process-wide Hickory resolver: empty until the first
/// [`GlobalHickoryDnsResolver`] is created, then holding the resolver for good.
pub struct ResolverSlot<R> {
    resolver: Option<R>,
}

impl<R> ResolverSlot<R> {
    /// The resolver held, if the slot was filled.
    pub closed spec fn value(self) -> Option<R> {
        self.resolver
    }

    pub open spec fn is_initialized(self) -> bool {
        self.value() is Some
    }

    pub fn new() -> (r: ResolverSlot<R>)
        ensures
            r.value() is None,
    {
        ResolverSlot { resolver: None }
    }

    pub fn initialized(&self) -> (r: bool)
        ensures
            r == self.is_initialized(),
    {
        self.resolver.is_some()
    }

    /// Fills the slot, unless it is filled already (then `resolver` is dropped).
    pub fn init(&mut self, resolver: R)
        ensures
            final(self).value() == if old(self).is_initialized() {
                old(self).value()
            } else {
                Some(resolver)
            },
    {
        if self.resolver.is_none() {
            self.resolver = Some(resolver);
        }
    }

    /// The resolver held; the slot must have been filled.
    pub fn get(&self) -> (r: &R)
        requires
            self.is_initialized(),
        ensures
            Some(*r) == self.value(),
    {
        self.resolver.as_ref().unwrap()
    }
}

/// Why a [`GlobalHickoryDnsResolver`] was not created.
#[derive(Debug)]
pub enum GlobalResolverError<E> {
    /// The process-wide resolver exists already: it is created only once.
    AlreadyInitialized,
    /// Building the resolver failed.
    Build(E),
}

/// What creating the process-wide resolver in `old_slot` with `build` may
/// give (`r`, and the slot afterwards, `new_slot`): a refusal that leaves the
/// slot as it was if it was filled; otherwise what `build` returned: on
/// success the slot holds the resolver built, on failure the slot is unchanged
/// and the error is `build`'s.
pub open spec fn creation_outcome<R, E, F: FnOnce() -> Result<R, E>, T>(
    old_slot: ResolverSlot<R>,
    new_slot: ResolverSlot<R>,
    build: F,
    r: Result<T, GlobalResolverError<E>>,
) -> bool {
    if old_slot.is_initialized() {
        r is Err && r->Err_0 is AlreadyInitialized && new_slot == old_slot
    } else {
        match r {
            Ok(_) => exists|v: R| #[trigger]
                call_ensures(build, (), Ok(v)) && new_slot.value() == Some(v),
            Err(GlobalResolverError::Build(e)) => call_ensures(build, (), Err(e)) && new_slot
                == old_slot,
            Err(GlobalResolverError::AlreadyInitialized) => false,
        }
    }
}

/// The process-wide resolver is created at most once: after a creation has
/// succeeded, any later creation on the slot it left is refused, and the
/// slot keeps the resolver that the first creation placed there.
pub proof fn lemma_created_at_most_once<
    R,
    E,
    F1: FnOnce() -> Result<R, E>,
    F2: FnOnce() -> Result<R, E>,
    T1,
    T2,
>(
    before: ResolverSlot<R>,
    after_first: ResolverSlot<R>,
    after_second: ResolverSlot<R>,
    first_build: F1,
    second_build: F2,
    first: Result<T1, GlobalResolverError<E>>,
    second: Result<T2, GlobalResolverError<E>>,
)
    requires
        creation_outcome(before, after_first, first_build, first),
        first is Ok,
        creation_outcome(after_first, after_second, second_build, second),
    ensures
        after_first.is_initialized(),
        second is Err && second->Err_0 is AlreadyInitialized,
        after_second == after_first,
{
}

/// A handle to the process-wide Hickory resolver, held in a [`ResolverSlot`].
#[derive(Clone, Copy, Debug, PartialEq, Eq)]
pub struct GlobalHickoryDnsResolver {
    _priv: (),
}

impl GlobalHickoryDnsResolver {
    /// Creates the handle and fills `slot` with the resolver that `build` makes.
    ///
    /// It is created only once: when `slot` is filled already, this returns
    /// [`GlobalResolverError::AlreadyInitialized`] without calling `build`.
    pub fn new<R, E, F: FnOnce() -> Result<R, E>>(slot: &mut ResolverSlot<R>, build: F) -> (r: Result<
        GlobalHickoryDnsResolver,
        GlobalResolverError<E>,
    >)
        requires
            !old(slot).is_initialized() ==> call_requires(build, ()),
        ensures
            creation_outcome(*old(slot), *final(slot), build, r),
    {
        if slot.initialized() {
            return Err(GlobalResolverError::AlreadyInitialized);
        }
        match build() {
            Ok(resolver) => {
                slot.init(resolver);
                Ok(GlobalHickoryDnsResolver { _priv: () })
            },
            Err(e) => Err(GlobalResolverError::Build(e)),
        }
    }
}

/// Resolution through the operating system, as Tokio's `lookup_host` does it.
#[derive(Clone, Copy, Debug, Default, PartialEq, Eq)]
pub struct TokioDnsResolver {
    _priv: (),
}

impl TokioDnsResolver {
    /// The type has a single value, so there is nothing to say of the result.
    pub fn new() -> (r: TokioDnsResolver) {
        TokioDnsResolver { _priv: () }
    }
}

/// The resolver that the upstreams of a host use to find their addresses.
#[derive(Clone, Copy, Debug, PartialEq, Eq)]
pub enum DnsResolver {
    Hickory(GlobalHickoryDnsResolver),
    Tokio(TokioDnsResolver),
}

impl DnsResolver {
    /// The process-wide Hickory resolver, created in `slot` with `build`
    /// (see [`GlobalHickoryDnsResolver::new`]).
    pub fn hickory<R, E, F: FnOnce() -> Result<R, E>>(slot: &mut ResolverSlot<R>, build: F) -> (r:
        Result<DnsResolver, GlobalResolverError<E>>)
        requires
            !old(slot).is_initialized() ==> call_requires(build, ()),
        ensures
            creation_outcome(*old(slot), *final(slot), build, r),
            r matches Ok(d) ==> d is Hickory,
    {
        match GlobalHickoryDnsResolver::new(slot, build) {
            Ok(resolver) => Ok(DnsResolver::Hickory(resolver)),
            Err(e) => Err(e),
        }
    }

    /// The resolver that the configuration names; only Hickory's is built
    /// (with `build`) and placed in `slot`.
    pub fn from_config<R, E, F: FnOnce() -> Result<R, E>>(
        config: DnsResolverConfig,
        slot: &mut ResolverSlot<R>,
        build: F,
    ) -> (r: Result<DnsResolver, GlobalResolverError<E>>)
        requires
            config is Hickory && !old(slot).is_initialized() ==> call_requires(build, ()),
        ensures
            config is Hickory ==> creation_outcome(*old(slot), *final(slot), build, r) && (r matches Ok(
                d,
            ) ==> d is Hickory),
            config is Tokio ==> (r matches Ok(d) && d is Tokio) && *final(slot) == *old(slot),
    {
        match config {
            DnsResolverConfig::Hickory => DnsResolver::hickory(slot, build),
            DnsResolverConfig::Tokio => Ok(DnsResolver::tokio()),
        }
    }

    /// The socket addresses of a lookup's IP addresses at `port`, in order.
    pub fn with_port(ips: &Vec<IpAddress>, port: u16) -> (r: Vec<SocketAddress>)
        ensures
            r@ == ips@.map_values(|ip: IpAddress| SocketAddress { ip, port, flowinfo: 0, scope_id: 0 }),
    {
        let mut r: Vec<SocketAddress> = Vec::new();
        let mut i: usize = 0;
        while i < ips.len()
            invariant
                i <= ips@.len(),
                r@ == ips@.take(i as int).map_values(|ip: IpAddress| SocketAddress { ip, port, flowinfo: 0, scope_id: 0 }),
            decreases ips@.len() - i,
        {
            r.push(SocketAddress::new(ips[i], port));
            proof {
                assert(ips@.take((i + 1) as int) == ips@.take(i as int).push(ips@[i as int]));
            }
            i = i + 1;
        }
        proof {
            assert(ips@.take(ips@.len() as int) == ips@);
        }
        r
    }

    pub fn tokio() -> (r: DnsResolver)
        ensures
            r is Tokio,
    {
        DnsResolver::Tokio(TokioDnsResolver::new())
    }
}

} // verus!
