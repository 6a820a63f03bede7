//! Address pools: a network block and the addresses granted from it.
//!
//! A pool of prefix length `p` spans `2^(32 - p)` addresses from its network
//! address up. The first and the last of them, the network address and the
//! broadcast address, are never granted; the others are the pool's hosts.
//! A consumer keeps what it was granted, and a new consumer is granted the
//! lowest host that nobody holds.

use crate::errors::Error;
use crate::helpers::{Cidr, ObjectReference};
use crate::net::Ipv4Addr;
use crate::wireguard::allocations::Allocations;
use crate::wireguard::configs::ObjectMeta;
use vstd::arithmetic::div_mod::lemma_fundamental_div_mod;
use vstd::arithmetic::power2::{lemma2_to64, lemma_pow2_adds, lemma_pow2_pos, pow2};
use vstd::bits::lemma_u64_shl_is_mul;
use vstd::prelude::*;
use vstd::relations::injective_on;
use vstd::set_lib::{lemma_int_range, lemma_map_size, lemma_subset_equality, set_int_range};

verus! {

/// An address with the prefix length of its network.
#[derive(Clone, Copy, Debug, PartialEq, Eq, Structural)]
pub struct WireguardNetwork {
    pub address: Ipv4Addr,
    pub prefix: u8,
}

/// What is wanted of an address pool: its network block.
#[derive(Debug)]
pub struct WireguardAddressPoolSpec {
    pub network: Cidr,
}

impl Default for WireguardAddressPoolSpec {
    fn default() -> (r: Self)
        ensures
            r.network@ == crate::helpers::DEFAULT_NETWORK@,
    {
        WireguardAddressPoolSpec { network: Cidr::default() }
    }
}

/// The state of an address pool: who holds which address.
#[derive(Debug)]
pub struct WireguardAddressPoolStatus {
    pub allocation: Allocations,
}

impl Default for WireguardAddressPoolStatus {
    fn default() -> (r: Self)
        ensures
            r.allocation@ == Map::<Seq<char>, Ipv4Addr>::empty(),
    {
        WireguardAddressPoolStatus { allocation: Allocations::new() }
    }
}

/// An address pool: its identity, its network block and its ledger.
#[derive(Debug)]
pub struct WireguardAddressPool {
    pub metadata: ObjectMeta,
    pub spec: WireguardAddressPoolSpec,
    pub status: Option<WireguardAddressPoolStatus>,
}

/// The number of addresses that a block of prefix length `prefix` spans.
pub open spec fn block_size(prefix: u8) -> int {
    pow2((32 - prefix) as nat) as int
}

/// The network address of the block that `base` lies in: `base` with its
/// host bits cleared.
pub open spec fn network_address(base: Ipv4Addr, prefix: u8) -> int {
    base.bits as int - (base.bits as int) % block_size(prefix)
}

/// The broadcast address of the block that `base` lies in: the last
/// address of the block.
pub open spec fn broadcast_address(base: Ipv4Addr, prefix: u8) -> int {
    network_address(base, prefix) + block_size(prefix) - 1
}

/// Whether `a` is a host of the block: inside it, and neither its network
/// address nor its broadcast address.
pub open spec fn is_host(base: Ipv4Addr, prefix: u8, a: Ipv4Addr) -> bool {
    network_address(base, prefix) < a.bits < broadcast_address(base, prefix)
}

/// The number of hosts of a block of prefix length `prefix`.
pub open spec fn host_count(prefix: u8) -> int {
    if block_size(prefix) >= 2 {
        block_size(prefix) - 2
    } else {
        0
    }
}

/// Whether every host of the block is held by some consumer.
pub open spec fn exhausted(base: Ipv4Addr, prefix: u8, ledger: Map<Seq<char>, Ipv4Addr>) -> bool {
    forall|a: Ipv4Addr| #[trigger] is_host(base, prefix, a) ==> ledger.contains_value(a)
}

/// Whether `a` is the lowest host of the block that nobody holds.
pub open spec fn first_free(
    base: Ipv4Addr,
    prefix: u8,
    ledger: Map<Seq<char>, Ipv4Addr>,
    a: Ipv4Addr,
) -> bool {
    &&& is_host(base, prefix, a)
    &&& !ledger.contains_value(a)
    &&& forall|b: Ipv4Addr| #[trigger]
        is_host(base, prefix, b) && b.bits < a.bits ==> ledger.contains_value(b)
}

/// The lowest host of the block that nobody holds, where there is one.
pub open spec fn grant(base: Ipv4Addr, prefix: u8, ledger: Map<Seq<char>, Ipv4Addr>) -> Ipv4Addr {
    choose|a: Ipv4Addr| first_free(base, prefix, ledger, a)
}

/// The base address and prefix length of a pool's network, where the text
/// gives them.
pub open spec fn network_of(cidr: Seq<char>) -> Option<(Ipv4Addr, u8)> {
    Cidr::spec_split(cidr)
}

/// What assigning an address to the consumer `key` returns, and the ledger
/// that it leaves, for a pool of network `cidr` and ledger `ledger`.
pub open spec fn assign(cidr: Seq<char>, ledger: Map<Seq<char>, Ipv4Addr>, key: Seq<char>) -> (
    Result<(Ipv4Addr, u8), Error>,
    Map<Seq<char>, Ipv4Addr>,
) {
    match network_of(cidr) {
        None => (Err(Error::InvalidCidr), ledger),
        Some((base, prefix)) => if ledger.contains_key(key) {
            (Ok((ledger[key], prefix)), ledger)
        } else if exhausted(base, prefix, ledger) {
            (Err(Error::PoolExhausted), ledger)
        } else {
            (
                Ok((grant(base, prefix, ledger), prefix)),
                ledger.insert(key, grant(base, prefix, ledger)),
            )
        },
    }
}

/// A ledger as grants from the block leave it: finitely many consumers,
/// each holding a host of the block, no two the same.
pub open spec fn ledger_wf(base: Ipv4Addr, prefix: u8, ledger: Map<Seq<char>, Ipv4Addr>) -> bool {
    &&& ledger.dom().finite()
    &&& ledger.is_injective()
    &&& forall|k: Seq<char>| #[trigger] ledger.contains_key(k) ==> is_host(base, prefix, ledger[k])
}

/// A block lies within the 32-bit address space, from its network address
/// to its broadcast address, and holds its base.
pub proof fn lemma_block(base: Ipv4Addr, prefix: u8)
    requires
        prefix <= 32,
    ensures
        1 <= block_size(prefix) <= 0x1_0000_0000,
        0 <= network_address(base, prefix) <= base.bits <= broadcast_address(base, prefix)
            <= u32::MAX,
{
    let s = block_size(prefix);
    let t = pow2(prefix as nat) as int;
    let b = base.bits as int;
    lemma_pow2_pos((32 - prefix) as nat);
    lemma_pow2_pos(prefix as nat);
    lemma_pow2_adds((32 - prefix) as nat, prefix as nat);
    lemma2_to64();
    assert(s * t == 0x1_0000_0000);
    assert(s <= 0x1_0000_0000) by (nonlinear_arith)
        requires
            s * t == 0x1_0000_0000,
            s >= 1,
            t >= 1,
    ;
    lemma_fundamental_div_mod(b, s);
    let q = b / s;
    assert(0 <= b % s < s);
    assert(b == s * q + b % s);
    assert(q < t) by (nonlinear_arith)
        requires
            s * q <= b,
            b < s * t,
            s >= 1,
    ;
    assert(s * q + s <= s * t) by (nonlinear_arith)
        requires
            q + 1 <= t,
            s >= 1,
    ;
}

/// No host is the unspecified address `0.0.0.0` or the limited broadcast
/// address `255.255.255.255`.
pub proof fn lemma_host_is_ordinary(base: Ipv4Addr, prefix: u8, a: Ipv4Addr)
    requires
        prefix <= 32,
        is_host(base, prefix, a),
    ensures
        a.bits != 0,
        a.bits != u32::MAX,
{
    lemma_block(base, prefix);
}

/// There is at most one lowest free host.
pub proof fn lemma_first_free_unique(
    base: Ipv4Addr,
    prefix: u8,
    ledger: Map<Seq<char>, Ipv4Addr>,
    a: Ipv4Addr,
    b: Ipv4Addr,
)
    requires
        first_free(base, prefix, ledger, a),
        first_free(base, prefix, ledger, b),
    ensures
        a == b,
{
    if a.bits < b.bits {
        assert(is_host(base, prefix, a) && a.bits < b.bits);
    } else if b.bits < a.bits {
        assert(is_host(base, prefix, b) && b.bits < a.bits);
    }
}

/// A pool that is not exhausted has a lowest free host.
pub proof fn lemma_grant_exists(base: Ipv4Addr, prefix: u8, ledger: Map<Seq<char>, Ipv4Addr>)
    requires
        prefix <= 32,
        !exhausted(base, prefix, ledger),
    ensures
        first_free(base, prefix, ledger, grant(base, prefix, ledger)),
{
    lemma_block(base, prefix);
    let some = choose|a: Ipv4Addr| #[trigger]
        is_host(base, prefix, a) && !ledger.contains_value(a);
    lemma_lowest_free(base, prefix, ledger, some, network_address(base, prefix) + 1);
}

/// Below a free host, from `from` up, lies the lowest free host.
proof fn lemma_lowest_free(
    base: Ipv4Addr,
    prefix: u8,
    ledger: Map<Seq<char>, Ipv4Addr>,
    free: Ipv4Addr,
    from: int,
)
    requires
        prefix <= 32,
        is_host(base, prefix, free),
        !ledger.contains_value(free),
        network_address(base, prefix) < from <= free.bits,
        forall|b: Ipv4Addr| #[trigger]
            is_host(base, prefix, b) && b.bits < from ==> ledger.contains_value(b),
    ensures
        exists|a: Ipv4Addr| first_free(base, prefix, ledger, a),
    decreases free.bits - from,
{
    lemma_block(base, prefix);
    let candidate = Ipv4Addr { bits: from as u32 };
    assert(candidate.bits == from);
    assert(is_host(base, prefix, candidate));
    if !ledger.contains_value(candidate) {
        assert(first_free(base, prefix, ledger, candidate));
    } else {
        assert forall|b: Ipv4Addr| #[trigger]
            is_host(base, prefix, b) && b.bits < from + 1 implies ledger.contains_value(b) by {
            if b.bits == from {
                assert(b == candidate);
            }
        }
        lemma_lowest_free(base, prefix, ledger, free, from + 1);
    }
}

/// The hosts of a block.
pub open spec fn hosts(base: Ipv4Addr, prefix: u8) -> Set<Ipv4Addr> {
    Set::new(|a: Ipv4Addr| is_host(base, prefix, a))
}

/// A block has finitely many hosts: all its addresses but two.
pub proof fn lemma_hosts(base: Ipv4Addr, prefix: u8)
    requires
        prefix <= 32,
    ensures
        hosts(base, prefix).finite(),
        hosts(base, prefix).len() == host_count(prefix),
{
    lemma_block(base, prefix);
    let lo = network_address(base, prefix) + 1;
    let hi = broadcast_address(base, prefix);
    let h = hosts(base, prefix);
    if lo > hi {
        assert(h =~= Set::<Ipv4Addr>::empty());
    } else {
        lemma_int_range(lo, hi);
        let r = set_int_range(lo, hi);
        let f = |i: int| Ipv4Addr { bits: i as u32 };
        assert(injective_on(f, r)) by {
            assert forall|x: int, y: int|
                r.contains(x) && r.contains(y) && #[trigger] f(x) == #[trigger] f(y) implies x
                == y by {
                assert(f(x).bits == x);
                assert(f(y).bits == y);
            }
        }
        assert forall|a: Ipv4Addr| r.map(f).contains(a) <==> h.contains(a) by {
            if h.contains(a) {
                assert(r.contains(a.bits as int));
                assert(f(a.bits as int) == a);
            }
            if r.map(f).contains(a) {
                let i = choose|i: int| r.contains(i) && a == f(i);
                assert(a.bits == i);
            }
        }
        assert(r.map(f) =~= h);
        lemma_map_size(r, h, f);
    }
}

/// Assigning twice to the same consumer gives the same answer both times,
/// and the second time leaves the ledger as the first left it.
pub proof fn lemma_assign_idempotent(
    cidr: Seq<char>,
    ledger: Map<Seq<char>, Ipv4Addr>,
    key: Seq<char>,
)
    ensures
        assign(cidr, assign(cidr, ledger, key).1, key) == assign(cidr, ledger, key),
{
    let first = assign(cidr, ledger, key);
    match network_of(cidr) {
        None => {},
        Some((base, prefix)) => {
            if !ledger.contains_key(key) && !exhausted(base, prefix, ledger) {
                let a = grant(base, prefix, ledger);
                assert(first.1.contains_key(key));
                assert(first.1[key] == a);
                assert(first.1.insert(key, a) =~= first.1);
            }
        },
    }
}

/// In a pool whose consumers are as many as its hosts, a further consumer
/// gets `PoolExhausted`.
pub proof fn lemma_full_pool_is_exhausted(
    cidr: Seq<char>,
    ledger: Map<Seq<char>, Ipv4Addr>,
    key: Seq<char>,
)
    requires
        network_of(cidr) is Some,
        ledger_wf((network_of(cidr)->0).0, (network_of(cidr)->0).1, ledger),
        ledger.len() == host_count((network_of(cidr)->0).1),
        !ledger.contains_key(key),
    ensures
        assign(cidr, ledger, key) == (
            Err::<(Ipv4Addr, u8), Error>(Error::PoolExhausted),
            ledger,
        ),
{
    let (base, prefix) = network_of(cidr)->0;
    lemma_hosts(base, prefix);
    ledger.lemma_injective_values_len();
    let held = ledger.values();
    let h = hosts(base, prefix);
    assert(held.subset_of(h)) by {
        assert forall|a: Ipv4Addr| held.contains(a) implies h.contains(a) by {
            let k = choose|k: Seq<char>| #[trigger] ledger.dom().contains(k) && ledger[k] == a;
            assert(ledger.contains_key(k));
        }
    }
    lemma_subset_equality(held, h);
    assert forall|a: Ipv4Addr| #[trigger] is_host(base, prefix, a) implies ledger.contains_value(
        a,
    ) by {
        assert(h.contains(a));
        assert(held.contains(a));
    }
}

/// A newly granted address is a host of the pool, so neither its network
/// address nor its broadcast address, and no consumer held it before.
pub proof fn lemma_grant_is_fresh(
    cidr: Seq<char>,
    ledger: Map<Seq<char>, Ipv4Addr>,
    key: Seq<char>,
)
    requires
        network_of(cidr) is Some,
        !ledger.contains_key(key),
        assign(cidr, ledger, key).0 is Ok,
    ensures
        ({
            let (base, prefix) = network_of(cidr)->0;
            let a = (assign(cidr, ledger, key).0->Ok_0).0;
            &&& is_host(base, prefix, a)
            &&& a.bits != network_address(base, prefix)
            &&& a.bits != broadcast_address(base, prefix)
            &&& a.bits != 0
            &&& a.bits != u32::MAX
            &&& forall|k: Seq<char>| ledger.contains_key(k) ==> ledger[k] != a
        }),
{
    let (base, prefix) = network_of(cidr)->0;
    lemma_grant_exists(base, prefix, ledger);
    let a = grant(base, prefix, ledger);
    lemma_host_is_ordinary(base, prefix, a);
    assert forall|k: Seq<char>| ledger.contains_key(k) implies ledger[k] != a by {
        if ledger[k] == a {
            assert(ledger.dom().contains(k) && ledger[k] == a);
            assert(ledger.contains_value(a));
        }
    }
}

/// Assigning keeps a ledger well formed.
pub proof fn lemma_assign_keeps_wf(
    cidr: Seq<char>,
    ledger: Map<Seq<char>, Ipv4Addr>,
    key: Seq<char>,
)
    requires
        network_of(cidr) is Some,
        ledger_wf((network_of(cidr)->0).0, (network_of(cidr)->0).1, ledger),
    ensures
        ledger_wf((network_of(cidr)->0).0, (network_of(cidr)->0).1, assign(cidr, ledger, key).1),
{
    let (base, prefix) = network_of(cidr)->0;
    if !ledger.contains_key(key) && !exhausted(base, prefix, ledger) {
        lemma_grant_is_fresh(cidr, ledger, key);
        let a = grant(base, prefix, ledger);
        let after = ledger.insert(key, a);
        assert forall|x: Seq<char>, y: Seq<char>|
            x != y && after.dom().contains(x) && after.dom().contains(y) implies #[trigger] after[x]
            != #[trigger] after[y] by {
            if x != key && y != key {
                assert(ledger.dom().contains(x) && ledger.dom().contains(y));
            } else if x == key {
                assert(ledger.contains_key(y));
            } else {
                assert(ledger.contains_key(x));
            }
        }
        assert forall|k: Seq<char>| #[trigger] after.contains_key(k) implies is_host(
            base,
            prefix,
            after[k],
        ) by {
            if k != key {
                assert(ledger.contains_key(k));
            }
        }
    }
}

/// In a well-formed pool, no address that assigning returns is the pool's
/// network address, its broadcast address, or an address that another
/// consumer holds.
pub proof fn lemma_assigned_address_is_sound(
    cidr: Seq<char>,
    ledger: Map<Seq<char>, Ipv4Addr>,
    key: Seq<char>,
)
    requires
        network_of(cidr) is Some,
        ledger_wf((network_of(cidr)->0).0, (network_of(cidr)->0).1, ledger),
        assign(cidr, ledger, key).0 is Ok,
    ensures
        ({
            let (base, prefix) = network_of(cidr)->0;
            let a = (assign(cidr, ledger, key).0->Ok_0).0;
            &&& a.bits != network_address(base, prefix)
            &&& a.bits != broadcast_address(base, prefix)
            &&& forall|k: Seq<char>| k != key && ledger.contains_key(k) ==> ledger[k] != a
        }),
{
    let (base, prefix) = network_of(cidr)->0;
    if ledger.contains_key(key) {
        let a = ledger[key];
        assert(is_host(base, prefix, a));
        assert forall|k: Seq<char>| k != key && ledger.contains_key(k) implies ledger[k] != a by {
            assert(ledger.dom().contains(k) && ledger.dom().contains(key));
        }
    } else {
        lemma_grant_is_fresh(cidr, ledger, key);
    }
}

/// The ledger that `ledger` becomes when `keys` are assigned addresses one
/// after the other.
pub open spec fn assign_all(
    cidr: Seq<char>,
    ledger: Map<Seq<char>, Ipv4Addr>,
    keys: Seq<Seq<char>>,
) -> Map<Seq<char>, Ipv4Addr>
    decreases keys.len(),
{
    if keys.len() == 0 {
        ledger
    } else {
        assign(cidr, assign_all(cidr, ledger, keys.drop_last()), keys.last()).1
    }
}

/// Whatever consumers are assigned addresses, in whatever order, starting
/// from a well-formed ledger, such as the empty one: every consumer holds
/// a host of the pool, and no two hold the same.
pub proof fn lemma_assignments_keep_wf(
    cidr: Seq<char>,
    ledger: Map<Seq<char>, Ipv4Addr>,
    keys: Seq<Seq<char>>,
)
    requires
        network_of(cidr) is Some,
        ledger_wf((network_of(cidr)->0).0, (network_of(cidr)->0).1, ledger),
    ensures
        ledger_wf((network_of(cidr)->0).0, (network_of(cidr)->0).1, assign_all(cidr, ledger, keys)),
        ledger_wf(
            (network_of(cidr)->0).0,
            (network_of(cidr)->0).1,
            Map::<Seq<char>, Ipv4Addr>::empty(),
        ),
    decreases keys.len(),
{
    if keys.len() > 0 {
        lemma_assignments_keep_wf(cidr, ledger, keys.drop_last());
        lemma_assign_keeps_wf(cidr, assign_all(cidr, ledger, keys.drop_last()), keys.last());
    }
}

impl WireguardAddressPool {
    /// The ledger of this pool; empty where no state was written yet.
    pub open spec fn ledger(&self) -> Map<Seq<char>, Ipv4Addr> {
        match self.status {
            Some(status) => status.allocation@,
            None => Map::empty(),
        }
    }

    /// The address of the consumer `object_ref` in this pool, with the
    /// pool's prefix length: the one it holds already, or else the lowest
    /// free host, which it holds from now on. `InvalidCidr` where the
    /// pool's network is no IPv4 block, `PoolExhausted` where no host is
    /// free; the ledger then stays as it is. A well-formed ledger stays
    /// well formed.
    pub fn assign_ipv4(&mut self, object_ref: ObjectReference) -> (r: Result<
        (Ipv4Addr, u8),
        Error,
    >)
        ensures
            (r, final(self).ledger()) == assign(
                old(self).spec.network@,
                old(self).ledger(),
                object_ref@.key(),
            ),
            final(self).spec == old(self).spec,
            final(self).metadata == old(self).metadata,
            network_of(old(self).spec.network@) is Some ==> final(self).status is Some,
            network_of(old(self).spec.network@) is None ==> final(self).status == old(self).status,
            network_of(old(self).spec.network@) is Some && ledger_wf(
                (network_of(old(self).spec.network@)->0).0,
                (network_of(old(self).spec.network@)->0).1,
                old(self).ledger(),
            ) ==> ledger_wf(
                (network_of(old(self).spec.network@)->0).0,
                (network_of(old(self).spec.network@)->0).1,
                final(self).ledger(),
            ),
    {
        proof {
            if network_of(self.spec.network@) is Some && ledger_wf(
                (network_of(self.spec.network@)->0).0,
                (network_of(self.spec.network@)->0).1,
                self.ledger(),
            ) {
                lemma_assign_keeps_wf(self.spec.network@, self.ledger(), object_ref@.key());
            }
        }
        let (base, prefix) = match self.spec.network.split() {
            Ok(network) => network,
            Err(_) => { return Err(Error::InvalidCidr); },
        };
        let mut status = match self.status.take() {
            Some(status) => status,
            None => WireguardAddressPoolStatus::default(),
        };
        let ghost ledger = status.allocation@;
        assert(ledger == old(self).ledger());
        let key = object_ref.to_string();
        let r = match status.allocation.get(key.as_str()) {
            Some(address) => Ok((address, prefix)),
            None => match first_free_host(&status.allocation, base, prefix) {
                Some(address) => {
                    proof {
                        lemma_grant_exists(base, prefix, ledger);
                        lemma_first_free_unique(
                            base,
                            prefix,
                            ledger,
                            address,
                            grant(base, prefix, ledger),
                        );
                    }
                    status.allocation.insert(key, address);
                    Ok((address, prefix))
                },
                None => Err(Error::PoolExhausted),
            },
        };
        self.status = Some(status);
        r
    }
}

/// The lowest host of the block that nobody holds in `allocation`, or
/// `None` where every host is held.
pub fn first_free_host(allocation: &Allocations, base: Ipv4Addr, prefix: u8) -> (r: Option<
    Ipv4Addr,
>)
    requires
        prefix <= 32,
    ensures
        match r {
            Some(a) => first_free(base, prefix, allocation@, a),
            None => exhausted(base, prefix, allocation@),
        },
{
    let shift: u64 = (32 - prefix) as u64;
    proof {
        lemma_block(base, prefix);
        lemma_u64_shl_is_mul(1, shift);
    }
    let size: u64 = 1u64 << shift;
    let network: u64 = base.bits as u64 - (base.bits as u64) % size;
    let mut offset: u64 = 1;
    while offset + 1 < size
        invariant
            prefix <= 32,
            1 <= offset <= size <= 0x1_0000_0000,
            size == block_size(prefix),
            network == network_address(base, prefix),
            network + size - 1 <= u32::MAX,
            forall|b: Ipv4Addr| #[trigger]
                is_host(base, prefix, b) && b.bits < network + offset
                    ==> allocation@.contains_value(b),
        decreases size - offset,
    {
        let candidate = Ipv4Addr::from_bits((network + offset) as u32);
        if !allocation.holds(candidate) {
            return Some(candidate);
        }
        assert forall|b: Ipv4Addr| #[trigger]
            is_host(base, prefix, b) && b.bits < network + offset + 1
                implies allocation@.contains_value(b) by {
            if b.bits == network + offset {
                assert(b == candidate);
            }
        }
        offset += 1;
    }
    None
}

} // verus!
