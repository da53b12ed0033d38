//! Interning of contract addresses.
use crate::bytes::{be_value, lemma_be_value_bound, lemma_pow256_values, pow256};
use std::collections::HashMap;
use vstd::prelude::*;

verus! {

broadcast use vstd::std_specs::hash::group_hash_axioms;

/// An address as the database holds it.
pub type StoredAddress = [u8; 32];

/// The elements of a sequence without repetitions, in the order in which they first occur.
pub open spec fn first_occurrences<T>(s: Seq<T>) -> Seq<T>
    decreases s.len(),
{
    if s.len() == 0 {
        Seq::empty()
    } else if s.drop_last().contains(s.last()) {
        first_occurrences(s.drop_last())
    } else {
        first_occurrences(s.drop_last()).push(s.last())
    }
}

/// Every element occurs exactly once among the first occurrences, and nothing else does.
pub proof fn lemma_first_occurrences<T>(s: Seq<T>)
    ensures
        first_occurrences(s).no_duplicates(),
        forall|x: T| #[trigger] first_occurrences(s).contains(x) <==> s.contains(x),
        first_occurrences(s).len() <= s.len(),
    decreases s.len(),
{
    if s.len() > 0 {
        let init = s.drop_last();
        let before = first_occurrences(init);
        lemma_first_occurrences(init);
        assert(s =~= init.push(s.last()));
        assert forall|x: T| s.contains(x) <==> (init.contains(x) || x == s.last()) by {
            if s.contains(x) {
                let i = s.index_of(x);
                if i < init.len() {
                    assert(init[i] == x);
                }
            }
            if init.contains(x) {
                let i = init.index_of(x);
                assert(s[i] == x);
            }
            assert(s[s.len() - 1] == s.last());
        }
        if !init.contains(s.last()) {
            let after = before.push(s.last());
            assert(after[after.len() - 1] == s.last());
            assert forall|x: T| #[trigger] after.contains(x) <==> (before.contains(x) || x == s.last()) by {
                if before.contains(x) {
                    let i = before.index_of(x);
                    assert(after[i] == x);
                }
            }
            assert(!before.contains(s.last()));
        }
    }
}

/// Whether two addresses are the same.
fn same_address(a: &StoredAddress, b: &StoredAddress) -> (r: bool)
    ensures
        r == (*a == *b),
{
    let mut i: usize = 0;
    while i < 32
        invariant
            i <= 32,
            forall|j: int| 0 <= j < i ==> a@[j] == b@[j],
        decreases 32 - i,
    {
        if a[i] != b[i] {
            return false;
        }
        i += 1;
    }
    assert(*a =~= *b);
    true
}

/// The number by which an address is found again: its last eight bytes.
spec fn key_of(address: StoredAddress) -> nat {
    be_value(address@.subrange(24, 32))
}

fn key(address: &StoredAddress) -> (r: u64)
    ensures
        r == key_of(*address),
{
    let mut r: u64 = 0;
    let mut i: usize = 24;
    assert(address@.subrange(24, 24).len() == 0);
    while i < 32
        invariant
            24 <= i <= 32,
            r == be_value(address@.subrange(24, i as int)),
        decreases 32 - i,
    {
        proof {
            let next = address@.subrange(24, i + 1);
            assert(next.drop_last() =~= address@.subrange(24, i as int));
            assert(next.last() == address@[i as int]);
            lemma_be_value_bound(next);
            lemma_pow256_values();
            lemma_pow256_monotonic((i - 23) as nat, 8);
        }
        r = r * 256 + address[i] as u64;
        i += 1;
    }
    r
}

proof fn lemma_pow256_monotonic(a: nat, b: nat)
    requires
        a <= b,
    ensures
        pow256(a) <= pow256(b),
    decreases b,
{
    if a < b {
        lemma_pow256_monotonic(a, (b - 1) as nat);
    }
}

/// Addresses without repetitions.
pub struct AddressSet {
    addresses: Vec<StoredAddress>,
    /// The positions of the addresses with a key.
    positions: HashMap<u64, Vec<usize>>,
}

impl View for AddressSet {
    type V = Seq<StoredAddress>;

    closed spec fn view(&self) -> Seq<StoredAddress> {
        self.addresses@
    }
}

impl AddressSet {
    #[verifier::type_invariant]
    spec fn well_formed(self) -> bool {
        &&& self.addresses@.no_duplicates()
        &&& forall|i: int|
            0 <= i < self.addresses@.len() ==> {
                &&& self.positions@.contains_key(key_of(#[trigger] self.addresses@[i]) as u64)
                &&& self.positions@[key_of(self.addresses@[i]) as u64]@.contains(i as usize)
            }
        &&& forall|k: u64, p: int|
            self.positions@.contains_key(k) && 0 <= p < self.positions@[k]@.len() ==> (
            #[trigger] self.positions@[k]@[p]) < self.addresses@.len()
    }

    /// No addresses.
    pub fn new() -> (r: AddressSet)
        ensures
            r@ == Seq::<StoredAddress>::empty(),
    {
        AddressSet { addresses: Vec::new(), positions: HashMap::new() }
    }

    /// Enters an address. Returns whether it is new.
    pub fn insert(&mut self, address: StoredAddress) -> (r: bool)
        ensures
            r == !old(self)@.contains(address),
            final(self)@ == if r {
                old(self)@.push(address)
            } else {
                old(self)@
            },
    {
        proof {
            use_type_invariant(&*self);
        }
        let k: u64 = key(&address);
        let mut bucket: Vec<usize> = Vec::new();
        if let Some(known) = self.positions.get(&k) {
            let mut p: usize = 0;
            while p < known.len()
                invariant
                    p <= known@.len(),
                    self.positions@.contains_key(k),
                    self.positions@[k] == *known,
                    self.well_formed(),
                    bucket@ == known@.take(p as int),
                    forall|q: int| 0 <= q < p ==> self.addresses@[#[trigger] known@[q] as int] != address,
                decreases known.len() - p,
            {
                assert(self.positions@[k]@[p as int] < self.addresses@.len());
                let position: usize = known[p];
                if same_address(&self.addresses[position], &address) {
                    assert(self.addresses@[position as int] == address);
                    return false;
                }
                bucket.push(position);
                assert(known@.take(p + 1) =~= known@.take(p as int).push(position));
                p += 1;
            }
            assert(bucket@ =~= known@);
        }
        let position: usize = self.addresses.len();
        proof {
            if self@.contains(address) {
                let i = self@.index_of(address);
                assert(self.addresses@[i] == address);
                assert(self.positions@[k]@.contains(i as usize));
                let q = self.positions@[k]@.index_of(i as usize);
                assert(self.addresses@[bucket@[q] as int] == address);
            }
        }
        let ghost known = bucket@;
        bucket.push(position);
        let mut all: AddressSet = AddressSet::new();
        std::mem::swap(&mut all, self);
        let AddressSet { mut addresses, mut positions } = all;
        let ghost old_addresses = addresses@;
        let ghost old_positions = positions@;
        addresses.push(address);
        positions.insert(k, bucket);
        proof {
            assert(bucket@[known.len() as int] == position);
            assert forall|i: int| 0 <= i < addresses@.len() implies {
                &&& positions@.contains_key(key_of(#[trigger] addresses@[i]) as u64)
                &&& positions@[key_of(addresses@[i]) as u64]@.contains(i as usize)
            } by {
                if i < old_addresses.len() {
                    assert(addresses@[i] == old_addresses[i]);
                    let ki = key_of(old_addresses[i]) as u64;
                    assert(old_positions[ki]@.contains(i as usize));
                    if ki == k {
                        let q = known.index_of(i as usize);
                        assert(bucket@[q] == i as usize);
                    }
                }
            }
        }
        *self = AddressSet { addresses, positions };
        true
    }

    /// The addresses, in the order in which they were entered.
    pub fn into_addresses(self) -> (r: Vec<StoredAddress>)
        ensures
            r@ == self@,
            r@.no_duplicates(),
    {
        proof {
            use_type_invariant(&self);
        }
        self.addresses
    }
}

/// The addresses to intern: those of all contract updates, each of them once.
pub fn distinct_addresses(rows: &[StoredAddress]) -> (r: Vec<StoredAddress>)
    ensures
        r@ == first_occurrences(rows@),
        r@.no_duplicates(),
        forall|address: StoredAddress| #[trigger] r@.contains(address) <==> rows@.contains(address),
{
    let mut all: AddressSet = AddressSet::new();
    let mut i: usize = 0;
    while i < rows.len()
        invariant
            i <= rows@.len(),
            all@ == first_occurrences(rows@.take(i as int)),
        decreases rows.len() - i,
    {
        proof {
            let next = rows@.take(i + 1);
            assert(next.drop_last() =~= rows@.take(i as int));
            assert(next.last() == rows@[i as int]);
            lemma_first_occurrences(rows@.take(i as int));
        }
        all.insert(rows[i]);
        i += 1;
    }
    proof {
        assert(rows@.take(rows@.len() as int) =~= rows@);
        lemma_first_occurrences(rows@);
    }
    all.into_addresses()
}

/// Further rows add the addresses that they are the first to hold behind those that are known, and
/// change nothing else.
pub proof fn lemma_first_occurrences_grow<T>(s: Seq<T>, x: T)
    ensures
        s.contains(x) ==> first_occurrences(s.push(x)) == first_occurrences(s),
        !s.contains(x) ==> first_occurrences(s.push(x)) == first_occurrences(s).push(x),
        first_occurrences(Seq::<T>::empty()).len() == 0,
{
    assert(s.push(x).drop_last() =~= s);
}

} // verus!
