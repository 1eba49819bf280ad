use vstd::prelude::*;

use crate::errors::CapacityExceeded;

verus! {

/// Whether some entry of `entries` carries the key `a`.
spec fn holds_key(entries: Seq<(u32, u32)>, a: u32) -> bool {
    exists|i: int| 0 <= i < entries.len() && (#[trigger] entries[i]).0 == a
}

/// A fixed-capacity table keyed by 32-bit source address. The value beside
/// each key is a fixed-size reserved payload, unused by any decision and kept
/// only for future extension, so the view `@` is the set of addresses held.
///
/// The packet path only ever reads the table (`lookup`); `insert` belongs to
/// the management path, invoked before packet traffic begins. The capacity is
/// fixed at creation and the table is never resized; no eviction exists.
pub struct BlocklistTable {
    entries: Vec<(u32, u32)>,
    capacity: usize,
}

impl View for BlocklistTable {
    type V = Set<u32>;

    closed spec fn view(&self) -> Set<u32> {
        Set::new(|a: u32| holds_key(self.entries@, a))
    }
}

impl BlocklistTable {
    /// How many entries the table holds.
    pub closed spec fn spec_len(&self) -> nat {
        self.entries@.len()
    }

    /// How many entries the table can hold, fixed at creation.
    pub closed spec fn spec_capacity(&self) -> nat {
        self.capacity as nat
    }

    /// The table never holds more entries than its capacity.
    pub open spec fn wf(&self) -> bool {
        self.spec_len() <= self.spec_capacity()
    }

    /// An empty table that can hold up to `capacity` entries.
    pub fn with_max_entries(capacity: usize) -> (t: Self)
        ensures
            t.wf(),
            t@ == Set::<u32>::empty(),
            t.spec_len() == 0,
            t.spec_capacity() == capacity,
    {
        let t = BlocklistTable { entries: Vec::new(), capacity };
        proof {
            assert(t@ =~= Set::<u32>::empty());
        }
        t
    }

    /// Whether `address` is present. Read-only, allocation-free, and safe for
    /// any number of concurrent readers.
    pub fn lookup(&self, address: u32) -> (present: bool)
        ensures
            present == self@.contains(address),
    {
        let mut i: usize = 0;
        while i < self.entries.len()
            invariant
                i <= self.entries@.len(),
                forall|j: int| 0 <= j < i ==> (#[trigger] self.entries@[j]).0 != address,
            decreases self.entries@.len() - i,
        {
            if self.entries[i].0 == address {
                return true;
            }
            i += 1;
        }
        false
    }

    /// Management-path only: records `address`, keeping `value` beside it.
    /// An address already present has its value replaced and costs no entry;
    /// a new address fails with `CapacityExceeded` exactly when the table is
    /// full. An in-flight lookup is never affected: writes happen before or
    /// between packet-processing invocations.
    pub fn insert(&mut self, address: u32, value: u32) -> (r: Result<(), CapacityExceeded>)
        requires
            old(self).wf(),
        ensures
            final(self).wf(),
            final(self).spec_capacity() == old(self).spec_capacity(),
            r is Ok <==> (old(self)@.contains(address) || old(self).spec_len() < old(
                self,
            ).spec_capacity()),
            r is Ok ==> final(self)@ == old(self)@.insert(address),
            r is Err ==> *final(self) == *old(self),
            old(self)@.contains(address) ==> final(self).spec_len() == old(self).spec_len(),
            !old(self)@.contains(address) && r is Ok ==> final(self).spec_len() == old(
                self,
            ).spec_len() + 1,
    {
        let n = self.entries.len();
        let mut i: usize = 0;
        while i < n
            invariant
                n == self.entries@.len(),
                i <= n,
                *self == *old(self),
                old(self).wf(),
                forall|j: int| 0 <= j < i ==> (#[trigger] self.entries@[j]).0 != address,
            decreases n - i,
        {
            if self.entries[i].0 == address {
                proof {
                    assert(old(self)@.contains(address));
                }
                self.entries.set(i, (address, value));
                proof {
                    assert(self.entries@.len() == old(self).entries@.len());
                    assert forall|a: u32| self@.contains(a) == old(self)@.insert(
                        address,
                    ).contains(a) by {
                        lemma_update_same_key_membership(
                            old(self).entries@,
                            self.entries@,
                            i as int,
                            value,
                            a,
                        );
                        assert(old(self)@.insert(address).contains(a) == (a == address || old(
                            self,
                        )@.contains(a)));
                    }
                    assert(self@ =~= old(self)@.insert(address));
                }
                return Ok(());
            }
            i += 1;
        }
        proof {
            assert(!old(self)@.contains(address));
        }
        if self.entries.len() < self.capacity {
            self.entries.push((address, value));
            proof {
                assert forall|a: u32| self@.contains(a) == old(self)@.insert(address).contains(
                    a,
                ) by {
                    lemma_push_membership(old(self).entries@, self.entries@, address, value, a);
                }
                assert(self@ =~= old(self)@.insert(address));
            }
            Ok(())
        } else {
            Err(CapacityExceeded)
        }
    }

    /// How many entries the table holds.
    pub fn len(&self) -> (n: usize)
        ensures
            n == self.spec_len(),
    {
        self.entries.len()
    }

    /// How many entries the table can hold.
    pub fn capacity(&self) -> (n: usize)
        ensures
            n == self.spec_capacity(),
    {
        self.capacity
    }
}

/// Replacing the entry at `at` with one that carries the same key leaves
/// key membership unchanged.
proof fn lemma_update_same_key_membership(
    before: Seq<(u32, u32)>,
    after: Seq<(u32, u32)>,
    at: int,
    value: u32,
    a: u32,
)
    requires
        0 <= at < before.len(),
        after == before.update(at, ((before[at]).0, value)),
    ensures
        holds_key(after, a) == (a == (before[at]).0 || holds_key(before, a)),
{
    if holds_key(after, a) {
        let j = choose|j: int| 0 <= j < after.len() && (#[trigger] after[j]).0 == a;
        if j == at {
            assert(a == (before[at]).0);
        } else {
            assert((before[j]).0 == a);
        }
    }
    if a == (before[at]).0 {
        assert((after[at]).0 == a);
    } else if holds_key(before, a) {
        let j = choose|j: int| 0 <= j < before.len() && (#[trigger] before[j]).0 == a;
        assert((after[j]).0 == a);
    }
}

/// Appending one entry adds exactly its key to key membership.
proof fn lemma_push_membership(
    before: Seq<(u32, u32)>,
    after: Seq<(u32, u32)>,
    address: u32,
    value: u32,
    a: u32,
)
    requires
        after == before.push((address, value)),
    ensures
        holds_key(after, a) == (a == address || holds_key(before, a)),
{
    if holds_key(after, a) {
        let j = choose|j: int| 0 <= j < after.len() && (#[trigger] after[j]).0 == a;
        if j < before.len() {
            assert((before[j]).0 == a);
        } else {
            assert(a == address);
        }
    }
    if a == address {
        assert((after[before.len() as int]).0 == a);
    } else if holds_key(before, a) {
        let j = choose|j: int| 0 <= j < before.len() && (#[trigger] before[j]).0 == a;
        assert((after[j]).0 == a);
    }
}

/// Table round trip: an inserted address is reported present afterwards;
/// inserting one address never changes whether any other address is present;
/// and no address is present in a table never inserted into.
///
/// `lookup` reports exactly `@.contains`, and a successful `insert` turns the
/// view `s` into `s.insert(a)`, so this states the round trip over the views
/// those contracts use.
pub proof fn lemma_blocklist_round_trip(s: Set<u32>, a: u32, other: u32)
    ensures
        s.insert(a).contains(a),
        other != a ==> s.insert(a).contains(other) == s.contains(other),
        !Set::<u32>::empty().contains(other),
{
}

} // verus!
