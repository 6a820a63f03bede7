//! The ledger of an address pool: which consumer holds which address.

use crate::net::Ipv4Addr;
use vstd::prelude::*;
use vstd::string::*;

verus! {

/// One grant: the consumer's key and the address it holds.
#[derive(Debug, PartialEq, Eq)]
pub struct Allocation {
    pub consumer: String,
    pub address: Ipv4Addr,
}

/// A map from consumer keys to addresses, each key at most once.
#[derive(Debug)]
pub struct Allocations {
    entries: Vec<Allocation>,
}

/// Whether no two of `entries` have the same consumer.
pub open spec fn distinct(entries: Seq<Allocation>) -> bool {
    forall|i: int, j: int|
        0 <= i < j < entries.len() ==> (#[trigger] entries[i]).consumer@ != (
        #[trigger] entries[j]).consumer@
}

/// The map that `entries` write down, entry after entry.
pub open spec fn entries_map(entries: Seq<Allocation>) -> Map<Seq<char>, Ipv4Addr>
    decreases entries.len(),
{
    if entries.len() == 0 {
        Map::empty()
    } else {
        entries_map(entries.drop_last()).insert(entries.last().consumer@, entries.last().address)
    }
}

/// The map of a list of entries is finite and holds exactly the consumers
/// of the list; where these are distinct, each with its own address.
pub proof fn lemma_entries_map(entries: Seq<Allocation>)
    ensures
        entries_map(entries).dom().finite(),
        forall|k: Seq<char>| #[trigger]
            entries_map(entries).contains_key(k) <==> exists|i: int|
                0 <= i < entries.len() && (#[trigger] entries[i]).consumer@ == k,
        distinct(entries) ==> entries_map(entries).len() == entries.len(),
        distinct(entries) ==> forall|i: int|
            0 <= i < entries.len() ==> entries_map(entries)[(#[trigger] entries[i]).consumer@]
                == entries[i].address,
    decreases entries.len(),
{
    if entries.len() > 0 {
        let front = entries.drop_last();
        let last = entries.last();
        lemma_entries_map(front);
        let m = entries_map(entries);
        assert(m == entries_map(front).insert(last.consumer@, last.address));
        assert forall|k: Seq<char>| #[trigger] m.contains_key(k) implies exists|i: int|
            0 <= i < entries.len() && (#[trigger] entries[i]).consumer@ == k by {
            if k == last.consumer@ {
                assert(entries[entries.len() - 1].consumer@ == k);
            } else {
                assert(entries_map(front).contains_key(k));
                let i = choose|i: int| 0 <= i < front.len() && (#[trigger] front[i]).consumer@ == k;
                assert(entries[i].consumer@ == k);
            }
        }
        assert forall|k: Seq<char>|
            (exists|i: int| 0 <= i < entries.len() && (#[trigger] entries[i]).consumer@ == k)
            implies #[trigger] m.contains_key(k) by {
            let i = choose|i: int| 0 <= i < entries.len() && (#[trigger] entries[i]).consumer@ == k;
            if i < front.len() {
                assert(front[i].consumer@ == k);
            }
        }
        if distinct(entries) {
            assert(distinct(front)) by {
                assert forall|i: int, j: int| 0 <= i < j < front.len() implies (
                #[trigger] front[i]).consumer@ != (#[trigger] front[j]).consumer@ by {
                    assert(front[i] == entries[i]);
                    assert(front[j] == entries[j]);
                }
            }
            assert(!entries_map(front).contains_key(last.consumer@)) by {
                if entries_map(front).contains_key(last.consumer@) {
                    let i = choose|i: int|
                        0 <= i < front.len() && (#[trigger] front[i]).consumer@ == last.consumer@;
                    assert(entries[i].consumer@ == entries[entries.len() - 1].consumer@);
                }
            }
            assert forall|i: int| 0 <= i < entries.len() implies m[(
            #[trigger] entries[i]).consumer@] == entries[i].address by {
                if i < front.len() {
                    assert(front[i] == entries[i]);
                    assert(entries[i].consumer@ != entries[entries.len() - 1].consumer@);
                }
            }
        }
    }
}

impl View for Allocations {
    type V = Map<Seq<char>, Ipv4Addr>;

    closed spec fn view(&self) -> Map<Seq<char>, Ipv4Addr> {
        entries_map(self.entries@)
    }
}

impl Allocations {
    #[verifier::type_invariant]
    spec fn keys_distinct(self) -> bool {
        distinct(self.entries@)
    }

    /// The empty ledger.
    pub fn new() -> (r: Allocations)
        ensures
            r@ == Map::<Seq<char>, Ipv4Addr>::empty(),
    {
        Allocations { entries: Vec::new() }
    }

    /// The number of consumers that hold an address.
    pub fn len(&self) -> (r: usize)
        ensures
            self@.dom().finite(),
            r == self@.len(),
    {
        proof {
            use_type_invariant(self);
            lemma_entries_map(self.entries@);
        }
        self.entries.len()
    }

    /// Whether no consumer holds an address.
    pub fn is_empty(&self) -> (r: bool)
        ensures
            r == (self@ == Map::<Seq<char>, Ipv4Addr>::empty()),
    {
        proof {
            use_type_invariant(self);
            lemma_entries_map(self.entries@);
            if self.entries@.len() > 0 {
                assert(self@.contains_key(self.entries@[0].consumer@));
            }
        }
        self.entries.len() == 0
    }

    /// The place of `key` among the entries, if it has one.
    fn position(&self, key: &str) -> (r: Option<usize>)
        ensures
            match r {
                Some(i) => i < self.entries.len() && self.entries[i as int].consumer@ == key@,
                None => forall|i: int|
                    0 <= i < self.entries.len() ==> (#[trigger] self.entries[i]).consumer@ != key@,
            },
    {
        let wanted = String::from_str(key);
        let mut i: usize = 0;
        while i < self.entries.len()
            invariant
                i <= self.entries.len(),
                wanted@ == key@,
                forall|k: int| 0 <= k < i ==> (#[trigger] self.entries[k]).consumer@ != key@,
            decreases self.entries.len() - i,
        {
            if self.entries[i].consumer == wanted {
                return Some(i);
            }
            i += 1;
        }
        None
    }

    /// The address that `key` holds, if it holds one.
    pub fn get(&self, key: &str) -> (r: Option<Ipv4Addr>)
        ensures
            r == (if self@.contains_key(key@) {
                Some(self@[key@])
            } else {
                None
            }),
    {
        proof {
            use_type_invariant(self);
            lemma_entries_map(self.entries@);
        }
        match self.position(key) {
            Some(i) => Some(self.entries[i].address),
            None => None,
        }
    }

    /// Whether `key` holds an address.
    pub fn contains_key(&self, key: &str) -> (r: bool)
        ensures
            r == self@.contains_key(key@),
    {
        self.get(key).is_some()
    }

    /// Whether some consumer holds `address`.
    pub fn holds(&self, address: Ipv4Addr) -> (r: bool)
        ensures
            r == self@.contains_value(address),
    {
        proof {
            use_type_invariant(self);
            lemma_entries_map(self.entries@);
        }
        let mut i: usize = 0;
        while i < self.entries.len()
            invariant
                i <= self.entries.len(),
                distinct(self.entries@),
                forall|k: int| 0 <= k < i ==> (#[trigger] self.entries[k]).address != address,
            decreases self.entries.len() - i,
        {
            if self.entries[i].address.bits == address.bits {
                proof {
                    lemma_entries_map(self.entries@);
                    let k = self.entries[i as int].consumer@;
                    assert(self@.contains_key(k) && self@[k] == address);
                }
                return true;
            }
            i += 1;
        }
        proof {
            if self@.contains_value(address) {
                let k = choose|k: Seq<char>| self@.contains_key(k) && self@[k] == address;
                let j = choose|j: int|
                    0 <= j < self.entries.len() && (#[trigger] self.entries[j]).consumer@ == k;
                assert(self@[self.entries[j].consumer@] == self.entries[j].address);
            }
        }
        false
    }

    /// Records that `key` holds `address`, in place of what it held before;
    /// returns what it held before.
    pub fn insert(&mut self, key: String, address: Ipv4Addr) -> (r: Option<Ipv4Addr>)
        ensures
            final(self)@ == old(self)@.insert(key@, address),
            r == (if old(self)@.contains_key(key@) {
                Some(old(self)@[key@])
            } else {
                None
            }),
    {
        proof {
            use_type_invariant(&*self);
            lemma_entries_map(self.entries@);
        }
        let ghost before = self.entries@;
        let found = self.position(key.as_str());
        let mut entries: Vec<Allocation> = Vec::new();
        core::mem::swap(&mut self.entries, &mut entries);
        assert(entries@ == before);
        let held = match found {
            Some(i) => {
                let held = entries[i].address;
                entries.set(i, Allocation { consumer: key, address });
                proof {
                    let after = entries@;
                    assert forall|a: int, b: int| 0 <= a < b < after.len() implies (
                    #[trigger] after[a]).consumer@ != (#[trigger] after[b]).consumer@ by {
                        assert(after[a].consumer@ == before[a].consumer@);
                        assert(after[b].consumer@ == before[b].consumer@);
                    }
                    lemma_entries_map(after);
                    assert forall|k: Seq<char>| #[trigger]
                        entries_map(after).contains_key(k) <==> entries_map(before).insert(
                            key@,
                            address,
                        ).contains_key(k) by {
                        if entries_map(after).contains_key(k) {
                            let j = choose|j: int|
                                0 <= j < after.len() && (#[trigger] after[j]).consumer@ == k;
                            assert(before[j].consumer@ == k);
                        }
                        if entries_map(before).contains_key(k) {
                            let j = choose|j: int|
                                0 <= j < before.len() && (#[trigger] before[j]).consumer@ == k;
                            assert(after[j].consumer@ == k);
                        }
                        if k == key@ {
                            assert(after[i as int].consumer@ == k);
                        }
                    }
                    assert forall|k: Seq<char>| #[trigger]
                        entries_map(after).contains_key(k) implies entries_map(after)[k]
                        == entries_map(before).insert(key@, address)[k] by {
                        let j = choose|j: int|
                            0 <= j < after.len() && (#[trigger] after[j]).consumer@ == k;
                        assert(entries_map(after)[after[j].consumer@] == after[j].address);
                        if j != i {
                            assert(before[j].consumer@ == k);
                            assert(entries_map(before)[before[j].consumer@] == before[j].address);
                            assert(before[j].consumer@ != before[i as int].consumer@);
                        }
                    }
                    assert(entries_map(after) =~= entries_map(before).insert(key@, address));
                    assert(entries_map(before)[before[i as int].consumer@] == held);
                }
                Some(held)
            },
            None => {
                entries.push(Allocation { consumer: key, address });
                proof {
                    let after = entries@;
                    assert(after.drop_last() =~= before);
                    assert forall|a: int, b: int| 0 <= a < b < after.len() implies (
                    #[trigger] after[a]).consumer@ != (#[trigger] after[b]).consumer@ by {
                        assert(after[a] == before[a]);
                        if b < before.len() {
                            assert(after[b] == before[b]);
                        }
                    }
                }
                None
            },
        };
        core::mem::swap(&mut self.entries, &mut entries);
        held
    }

    /// The consumer and address of each grant, in no particular order:
    /// every grant once.
    pub fn entries(&self) -> (r: Vec<(String, Ipv4Addr)>)
        ensures
            self@.dom().finite(),
            r.len() == self@.len(),
            forall|i: int|
                0 <= i < r.len() ==> self@.contains_key((#[trigger] r[i]).0@) && self@[r[i].0@]
                    == r[i].1,
            forall|i: int, j: int|
                0 <= i < j < r.len() ==> (#[trigger] r[i]).0@ != (#[trigger] r[j]).0@,
    {
        proof {
            use_type_invariant(self);
            lemma_entries_map(self.entries@);
        }
        let mut r: Vec<(String, Ipv4Addr)> = Vec::new();
        let mut i: usize = 0;
        while i < self.entries.len()
            invariant
                i <= self.entries.len(),
                r.len() == i,
                forall|k: int|
                    0 <= k < i ==> (#[trigger] r[k]).0@ == self.entries[k].consumer@ && r[k].1
                        == self.entries[k].address,
            decreases self.entries.len() - i,
        {
            r.push((self.entries[i].consumer.clone(), self.entries[i].address));
            i += 1;
        }
        proof {
            assert forall|a: int, b: int| 0 <= a < b < r.len() implies (#[trigger] r[a]).0@ != (
            #[trigger] r[b]).0@ by {
                assert(self.entries[a].consumer@ != self.entries[b].consumer@);
            }
            assert forall|k: int| 0 <= k < r.len() implies self@.contains_key(
                (#[trigger] r[k]).0@,
            ) && self@[r[k].0@] == r[k].1 by {
                assert(self.entries[k].consumer@ == r[k].0@);
            }
        }
        r
    }
}

impl Clone for Allocations {
    fn clone(&self) -> (r: Self)
        ensures
            r@ == self@,
    {
        proof {
            use_type_invariant(self);
        }
        let mut entries: Vec<Allocation> = Vec::new();
        let mut i: usize = 0;
        while i < self.entries.len()
            invariant
                i <= self.entries.len(),
                entries@ == self.entries@.subrange(0, i as int),
                distinct(self.entries@),
            decreases self.entries.len() - i,
        {
            entries.push(
                Allocation {
                    consumer: self.entries[i].consumer.clone(),
                    address: self.entries[i].address,
                },
            );
            i += 1;
            assert(entries@ =~= self.entries@.subrange(0, i as int));
        }
        assert(entries@ =~= self.entries@);
        Allocations { entries }
    }
}

impl Default for Allocations {
    fn default() -> (r: Self)
        ensures
            r@ == Map::<Seq<char>, Ipv4Addr>::empty(),
    {
        Allocations::new()
    }
}

} // verus!
