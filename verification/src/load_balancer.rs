//! Load balancers: each call of `next` names the upstream that the next
//! accepted connection is forwarded to.
//!
//! Every balancer is described by a ring of upstreams and a position in it:
//! the `k`-th upstream that it will still emit is the ring's element at
//! `(position + k) % ring.len()`, and it emits nothing when the ring is empty.
use vstd::prelude::*;

use crate::upstream::Upstream;

verus! {

/// The `k`-th element that a rotation over `ring`, standing at `position`,
/// will emit from now on.
pub open spec fn rotation_nth(ring: Seq<Upstream>, position: nat, k: nat) -> Option<Upstream> {
    if ring.len() == 0 {
        None
    } else {
        Some(ring[((position + k) % ring.len()) as int])
    }
}

/// The position that a rotation of `len` elements reaches after one step.
pub open spec fn rotation_step(position: nat, len: nat) -> nat {
    if len == 0 {
        0
    } else {
        (((position + 1) as int) % (len as int)) as nat
    }
}

/// Stepping a rotation shifts what it will emit by one.
proof fn lemma_rotation_step(ring: Seq<Upstream>, position: nat, k: nat)
    requires
        ring.len() > 0,
    ensures
        rotation_nth(ring, rotation_step(position, ring.len()), k) == rotation_nth(
            ring,
            position,
            k + 1,
        ),
{
    let n = ring.len() as int;
    vstd::arithmetic::div_mod::lemma_add_mod_noop((position + 1) as int, k as int, n);
    vstd::arithmetic::div_mod::lemma_mod_twice((position + 1) as int, n);
    vstd::arithmetic::div_mod::lemma_add_mod_noop(((position + 1) as int) % n, k as int, n);
    vstd::arithmetic::div_mod::lemma_mod_pos_bound((position + 1) as int, n);
}

/// Emits the same upstream on every call.
pub struct IdentityLoadBalancer {
    upstream: Upstream,
}

impl IdentityLoadBalancer {
    pub closed spec fn upstream_view(self) -> Upstream {
        self.upstream
    }

    pub fn new(upstream: Upstream) -> (r: IdentityLoadBalancer)
        ensures
            r.upstream_view() == upstream,
    {
        IdentityLoadBalancer { upstream }
    }

    pub fn next(&mut self) -> (r: Option<Upstream>)
        ensures
            r == Some(old(self).upstream_view()),
            final(self).upstream_view() == old(self).upstream_view(),
    {
        Some(self.upstream)
    }
}

/// Cycles, in order, through a slice of upstreams that lives as long as the process.
pub struct StaticFifoLoadBalancer {
    upstreams: &'static [Upstream],
    cursor: usize,
}

impl StaticFifoLoadBalancer {
    pub closed spec fn ring(self) -> Seq<Upstream> {
        self.upstreams@
    }

    pub closed spec fn position(self) -> nat {
        if self.upstreams@.len() == 0 {
            0
        } else {
            (self.cursor as int % self.upstreams@.len() as int) as nat
        }
    }

    pub fn new(upstreams: &'static [Upstream]) -> (r: StaticFifoLoadBalancer)
        ensures
            r.ring() == upstreams@,
            r.position() == 0,
    {
        proof {
            if upstreams@.len() > 0 {
                vstd::arithmetic::div_mod::lemma_small_mod(0, upstreams@.len());
            }
        }
        StaticFifoLoadBalancer { upstreams, cursor: 0 }
    }

    pub fn next(&mut self) -> (r: Option<Upstream>)
        ensures
            r == rotation_nth(old(self).ring(), old(self).position(), 0),
            final(self).ring() == old(self).ring(),
            final(self).position() == rotation_step(old(self).position(), old(self).ring().len()),
    {
        let n = self.upstreams.len();
        if n == 0 {
            return None;
        }
        let i = self.cursor % n;
        let u = self.upstreams[i];
        self.cursor = if i + 1 == n {
            0
        } else {
            i + 1
        };
        proof {
            vstd::arithmetic::div_mod::lemma_small_mod(i as nat, n as nat);
            vstd::arithmetic::div_mod::lemma_small_mod(self.cursor as nat, n as nat);
            if i + 1 == n {
                vstd::arithmetic::div_mod::lemma_mod_self_0(n as int);
            } else {
                vstd::arithmetic::div_mod::lemma_small_mod((i + 1) as nat, n as nat);
            }
        }
        Some(u)
    }
}

/// Cycles, in order, through a vector of upstreams that it owns.
pub struct FifoLoadBalancer {
    upstreams: Vec<Upstream>,
    cursor: usize,
}

impl FifoLoadBalancer {
    pub closed spec fn ring(self) -> Seq<Upstream> {
        self.upstreams@
    }

    pub closed spec fn position(self) -> nat {
        if self.upstreams@.len() == 0 {
            0
        } else {
            (self.cursor as int % self.upstreams@.len() as int) as nat
        }
    }

    pub fn new(upstreams: Vec<Upstream>) -> (r: FifoLoadBalancer)
        ensures
            r.ring() == upstreams@,
            r.position() == 0,
    {
        proof {
            if upstreams@.len() > 0 {
                vstd::arithmetic::div_mod::lemma_small_mod(0, upstreams@.len());
            }
        }
        FifoLoadBalancer { upstreams, cursor: 0 }
    }

    pub fn next(&mut self) -> (r: Option<Upstream>)
        ensures
            r == rotation_nth(old(self).ring(), old(self).position(), 0),
            final(self).ring() == old(self).ring(),
            final(self).position() == rotation_step(old(self).position(), old(self).ring().len()),
    {
        let n = self.upstreams.len();
        if n == 0 {
            return None;
        }
        let i = self.cursor % n;
        let u = self.upstreams[i];
        self.cursor = if i + 1 == n {
            0
        } else {
            i + 1
        };
        proof {
            vstd::arithmetic::div_mod::lemma_small_mod(i as nat, n as nat);
            vstd::arithmetic::div_mod::lemma_small_mod(self.cursor as nat, n as nat);
            if i + 1 == n {
                vstd::arithmetic::div_mod::lemma_mod_self_0(n as int);
            } else {
                vstd::arithmetic::div_mod::lemma_small_mod((i + 1) as nat, n as nat);
            }
        }
        Some(u)
    }
}

/// The load balancers that a host can use.
pub enum LoadBalancer {
    Identity(IdentityLoadBalancer),
    StaticFifo(StaticFifoLoadBalancer),
    Fifo(FifoLoadBalancer),
}

impl LoadBalancer {
    /// The upstreams that the balancer cycles through, in order.
    pub open spec fn ring(self) -> Seq<Upstream> {
        match self {
            LoadBalancer::Identity(lb) => seq![lb.upstream_view()],
            LoadBalancer::StaticFifo(lb) => lb.ring(),
            LoadBalancer::Fifo(lb) => lb.ring(),
        }
    }

    /// The index in `ring()` of the upstream that the next call emits.
    pub open spec fn position(self) -> nat {
        match self {
            LoadBalancer::Identity(lb) => 0,
            LoadBalancer::StaticFifo(lb) => lb.position(),
            LoadBalancer::Fifo(lb) => lb.position(),
        }
    }

    /// What the `k`-th call of `next` from now on returns.
    pub open spec fn nth(self, k: nat) -> Option<Upstream> {
        rotation_nth(self.ring(), self.position(), k)
    }

    /// The index in `ring()` of what the `k`-th call from now on emits, when the ring is not empty.
    pub open spec fn slot(self, k: nat) -> int {
        ((self.position() + k) as int) % (self.ring().len() as int)
    }

    /// A balancer that emits an upstream on every call.
    pub open spec fn is_productive(self) -> bool {
        self.ring().len() > 0
    }

    pub fn identity(upstream: Upstream) -> (r: LoadBalancer)
        ensures
            r is Identity,
            r.ring() == seq![upstream],
            r.position() == 0,
    {
        LoadBalancer::Identity(IdentityLoadBalancer::new(upstream))
    }

    pub fn static_fifo(upstreams: &'static [Upstream]) -> (r: LoadBalancer)
        ensures
            r is StaticFifo,
            r.ring() == upstreams@,
            r.position() == 0,
    {
        LoadBalancer::StaticFifo(StaticFifoLoadBalancer::new(upstreams))
    }

    pub fn fifo(upstreams: Vec<Upstream>) -> (r: LoadBalancer)
        ensures
            r is Fifo,
            r.ring() == upstreams@,
            r.position() == 0,
    {
        LoadBalancer::Fifo(FifoLoadBalancer::new(upstreams))
    }

    /// Whether the balancer emits an upstream on every call.
    pub fn emits_upstreams(&self) -> (r: bool)
        ensures
            r == self.is_productive(),
    {
        match self {
            LoadBalancer::Identity(_) => true,
            LoadBalancer::StaticFifo(lb) => lb.upstreams.len() > 0,
            LoadBalancer::Fifo(lb) => lb.upstreams.len() > 0,
        }
    }

    /// Emits the upstream for the next connection, and moves on by one.
    pub fn next(&mut self) -> (r: Option<Upstream>)
        ensures
            r == old(self).nth(0),
            is_next_state(*old(self), *final(self)),
            (*final(self) is Identity) == (*old(self) is Identity),
            (*final(self) is StaticFifo) == (*old(self) is StaticFifo),
            (*final(self) is Fifo) == (*old(self) is Fifo),
            forall|k: nat| #[trigger] final(self).nth(k) == old(self).nth(k + 1),
    {
        let r = match self {
            LoadBalancer::Identity(lb) => lb.next(),
            LoadBalancer::StaticFifo(lb) => lb.next(),
            LoadBalancer::Fifo(lb) => lb.next(),
        };
        proof {
            assert forall|k: nat| #[trigger] self.nth(k) == old(self).nth(k + 1) by {
                if self.ring().len() > 0 {
                    lemma_rotation_step(self.ring(), old(self).position(), k);
                }
            }
        }
        r
    }
}

/// A balancer over an empty ring never emits an upstream, on any call.
pub proof fn lemma_empty_never_emits(lb: LoadBalancer, k: nat)
    requires
        lb.ring().len() == 0,
    ensures
        lb.nth(k) is None,
{
}

/// A balancer over a non-empty ring emits an upstream of its ring on every call.
pub proof fn lemma_productive_always_emits(lb: LoadBalancer, k: nat)
    requires
        lb.is_productive(),
    ensures
        lb.nth(k) is Some,
        lb.ring().contains(lb.nth(k).unwrap()),
{
    let n = lb.ring().len() as int;
    vstd::arithmetic::div_mod::lemma_mod_pos_bound((lb.position() + k) as int, n);
    let idx = ((lb.position() + k) as int) % n;
    assert(lb.ring()[idx] == lb.nth(k).unwrap());
}

/// An identity balancer emits the same upstream on every call.
pub proof fn lemma_identity_constant(lb: LoadBalancer, k: nat)
    requires
        lb is Identity,
    ensures
        lb.nth(k) == Some(lb.ring()[0]),
{
    vstd::arithmetic::div_mod::lemma_mod_pos_bound(k as int, 1);
}

/// A balancer freshly made over a ring (at position 0) emits, on its `k`-th
/// call, the ring's element `k % len`: plain round robin.
pub proof fn lemma_fresh_round_robin(lb: LoadBalancer, k: nat)
    requires
        lb.is_productive(),
        lb.position() == 0,
    ensures
        lb.nth(k) == Some(lb.ring()[(k % lb.ring().len()) as int]),
{
}

/// After one full turn of its ring, a balancer emits the same upstreams again.
pub proof fn lemma_cycle_repeats(lb: LoadBalancer, k: nat)
    requires
        lb.is_productive(),
    ensures
        lb.nth(k + lb.ring().len()) == lb.nth(k),
{
    let n = lb.ring().len() as int;
    vstd::arithmetic::div_mod::lemma_mod_add_multiples_vanish((lb.position() + k) as int, n);
    assert(lb.position() + (k + lb.ring().len()) == n + (lb.position() + k));
}

/// Whether `after` is what a call of `next` leaves of `before`.
pub open spec fn is_next_state(before: LoadBalancer, after: LoadBalancer) -> bool {
    &&& after.ring() == before.ring()
    &&& after.position() == rotation_step(before.position(), before.ring().len())
}

/// What a balancer will emit is decided up front: after any number `m` of
/// calls of `next` (each taking the balancer from one state of `states` to the
/// following one), the balancer emits what the first state said it would
/// emit `m` calls later.
pub proof fn lemma_calls_compose(states: Seq<LoadBalancer>, k: nat)
    requires
        states.len() > 0,
        forall|i: int| 0 <= i < states.len() - 1 ==> #[trigger] is_next_state(states[i], states[i + 1]),
    ensures
        states.last().nth(k) == states[0].nth(k + (states.len() - 1) as nat),
        states.last().ring() == states[0].ring(),
    decreases states.len(),
{
    if states.len() > 1 {
        let prefix = states.drop_last();
        assert forall|i: int| 0 <= i < prefix.len() - 1 implies #[trigger] is_next_state(
            prefix[i],
            prefix[i + 1],
        ) by {
            assert(is_next_state(states[i], states[i + 1]));
        }
        lemma_calls_compose(prefix, k + 1);
        let j = states.len() - 2;
        assert(is_next_state(states[j], states[j + 1]));
        let before = states[j];
        assert(prefix.last() == before);
        assert(states.last() == states[j + 1]);
        if before.ring().len() > 0 {
            lemma_rotation_step(before.ring(), before.position(), k);
        }
        assert(k + 1 + (prefix.len() - 1) as nat == k + (states.len() - 1) as nat);
    }
}

/// Calls less than a full turn apart emit different elements of the ring.
proof fn lemma_distinct_slots(lb: LoadBalancer, k1: nat, k2: nat)
    requires
        lb.is_productive(),
        k1 < k2 < k1 + lb.ring().len(),
    ensures
        lb.slot(k1) != lb.slot(k2),
{
    let n = lb.ring().len() as int;
    let a = (lb.position() + k1) as int;
    let b = (lb.position() + k2) as int;
    if a % n == b % n {
        vstd::arithmetic::div_mod::lemma_sub_mod_noop(b, a, n);
        vstd::arithmetic::div_mod::lemma_small_mod((k2 - k1) as nat, n as nat);
        vstd::arithmetic::div_mod::lemma_small_mod(0, n as nat);
        assert((b % n) - (a % n) == 0);
        assert(((b % n) - (a % n)) % n == 0);
        assert(b - a == k2 - k1);
        assert((b - a) % n == k2 - k1);
    }
}

/// Fairness: in any `len` consecutive calls, a balancer emits every element
/// of its ring (of length `len`), each at exactly one of those calls.
pub proof fn lemma_window_serves_each_once(lb: LoadBalancer, start: nat, i: int)
    requires
        lb.is_productive(),
        0 <= i < lb.ring().len(),
    ensures
        exists|j: nat| j < lb.ring().len() && #[trigger] lb.nth(start + j) == Some(lb.ring()[i]),
        forall|k1: nat, k2: nat|
            start <= k1 < k2 < start + lb.ring().len() ==> #[trigger] lb.slot(k1) != #[trigger] lb.slot(
                k2,
            ),
{
    let n = lb.ring().len() as int;
    let base = (lb.position() + start) as int;
    let j_int = (i - base) % n;
    vstd::arithmetic::div_mod::lemma_mod_bound(i - base, n);
    let j = j_int as nat;
    vstd::arithmetic::div_mod::lemma_add_mod_noop_right(base, i - base, n);
    vstd::arithmetic::div_mod::lemma_small_mod(i as nat, n as nat);
    assert((base + j) % n == i);
    assert(lb.nth(start + j) == Some(lb.ring()[i])) by {
        assert(lb.position() + (start + j) == base + j);
    }
    assert forall|k1: nat, k2: nat| start <= k1 < k2 < start + lb.ring().len() implies #[trigger] lb.slot(
        k1,
    ) != #[trigger] lb.slot(k2) by {
        lemma_distinct_slots(lb, k1, k2);
    }
}

} // verus!
