//! The reorder buffer: a height-ordered holding area for downloaded
//! records awaiting application.

use vstd::prelude::*;

verus! {

/// One downloaded record: its height and an opaque payload, immutable once
/// decoded.
#[derive(Debug)]
pub struct Record<T> {
    /// Position of the record in the total order of the sequence.
    pub height: u32,
    /// The record body; the buffer never reads it.
    pub payload: T,
}

/// Strictly ascending by height: sorted, with no duplicate heights.
pub open spec fn sorted_by_height<T>(s: Seq<Record<T>>) -> bool {
    forall|i: int, j: int| 0 <= i < j < s.len() ==> s[i].height < s[j].height
}

/// An ordered collection of records keyed by height, sorted by height,
/// holding at most one record per height.
pub struct ReorderBuffer<T> {
    records: Vec<Record<T>>,
}

impl<T> View for ReorderBuffer<T> {
    type V = Seq<Record<T>>;

    closed spec fn view(&self) -> Seq<Record<T>> {
        self.records@
    }
}

impl<T> ReorderBuffer<T> {
    /// Every buffer keeps its records strictly ascending by height.
    pub open spec fn wf(self) -> bool {
        sorted_by_height(self@)
    }

    /// Whether some held record has the given height.
    pub open spec fn contains_height(self, height: u32) -> bool {
        exists|i: int| 0 <= i < self@.len() && self@[i].height == height
    }

    /// Creates an empty buffer.
    pub fn new() -> (b: Self)
        ensures
            b@ =~= Seq::<Record<T>>::empty(),
            b.wf(),
    {
        ReorderBuffer { records: Vec::new() }
    }

    /// The number of records currently held.
    pub fn len(&self) -> (n: usize)
        ensures
            n == self@.len(),
    {
        self.records.len()
    }

    /// Sorted insert keyed by height. A record at an already-occupied
    /// height is dropped, never overwritten: the buffer is unchanged and
    /// the insert reports `false`.
    pub fn insert(&mut self, record: Record<T>) -> (inserted: bool)
        requires
            old(self).wf(),
        ensures
            final(self).wf(),
            inserted <==> !old(self).contains_height(record.height),
            !inserted ==> final(self)@ == old(self)@,
            inserted ==> exists|k: int|
                0 <= k <= old(self)@.len() && final(self)@ == old(self)@.insert(k, record),
            final(self)@.len() == old(self)@.len() + (if inserted {
                1int
            } else {
                0int
            }),
            forall|h: u32|
                final(self).contains_height(h) <==> old(self).contains_height(h) || (inserted
                    && h == record.height),
    {
        let ghost os = self.records@;
        let mut i: usize = 0;
        while i < self.records.len() && self.records[i].height < record.height
            invariant
                i <= os.len(),
                self.records@ == os,
                sorted_by_height(os),
                forall|j: int| 0 <= j < i ==> os[j].height < record.height,
            decreases os.len() - i,
        {
            i += 1;
        }
        if i < self.records.len() && self.records[i].height == record.height {
            proof {
                assert(old(self).contains_height(record.height));
            }
            return false;
        }
        proof {
            assert forall|j: int| 0 <= j < os.len() implies os[j].height != record.height by {
                if j < i {
                } else {
                    assert(os[i as int].height > record.height);
                    if j > i {
                        assert(os[i as int].height < os[j].height);
                    }
                }
            }
            assert(!old(self).contains_height(record.height));
        }
        self.records.insert(i, record);
        proof {
            let ns = self.records@;
            assert(ns == os.insert(i as int, record));
            assert forall|a: int, b: int| 0 <= a < b < ns.len() implies ns[a].height
                < ns[b].height by {
                if a < i && b < i {
                } else if a == i {
                    assert(ns[b] == os[b - 1]);
                } else if b == i {
                    assert(ns[a] == os[a]);
                } else if a > i {
                    assert(ns[a] == os[a - 1] && ns[b] == os[b - 1]);
                } else {
                    assert(ns[a] == os[a] && ns[b] == os[b - 1]);
                    if i <= b - 1 {
                        assert(os[i as int].height > record.height);
                    }
                }
            }
            assert forall|h: u32| self.contains_height(h) implies old(self).contains_height(h) || h == record.height by {
                let k = choose|k: int| 0 <= k < ns.len() && ns[k].height == h;
                if k < i {
                    assert(os[k].height == h);
                } else if k > i {
                    assert(os[k - 1].height == h);
                }
            }
            assert forall|h: u32| old(self).contains_height(h) implies self.contains_height(h) by {
                let k = choose|k: int|
                    0 <= k < old(self)@.len() && old(self)@[k].height == h;
                assert(os[k] == old(self)@[k]);
                if k < i {
                    assert(ns[k] == os[k]);
                    assert(0 <= k < self@.len() && self@[k].height == h);
                } else {
                    assert(ns[k + 1] == os[k]);
                    assert(0 <= k + 1 < self@.len() && self@[k + 1].height == h);
                }
            }
            assert(self@[i as int].height == record.height);
        }
        true
    }

    /// The minimum height currently held, or nothing if the buffer is
    /// empty.
    pub fn peek_earliest_height(&self) -> (h: Option<u32>)
        requires
            self.wf(),
        ensures
            h is None <==> self@.len() == 0,
            h matches Some(x) ==> x == self@[0].height && forall|i: int|
                0 <= i < self@.len() ==> x <= self@[i].height,
    {
        if self.records.len() == 0 {
            None
        } else {
            proof {
                assert forall|i: int| 0 <= i < self@.len() implies self@[0].height <= (
                #[trigger] self@[i]).height by {
                    if i > 0 {
                        assert(self@[0].height < self@[i].height);
                    }
                }
            }
            Some(self.records[0].height)
        }
    }

    /// Atomically removes and returns up to `limit` records starting from
    /// the minimum height, in ascending order, leaving the remainder.
    ///
    /// Every returned record's height is strictly below every retained
    /// record's height.
    pub fn take_prefix(&mut self, limit: usize) -> (taken: Vec<Record<T>>)
        requires
            old(self).wf(),
        ensures
            final(self).wf(),
            taken@.len() == if limit <= old(self)@.len() {
                limit as int
            } else {
                old(self)@.len() as int
            },
            taken@ == old(self)@.subrange(0, taken@.len() as int),
            final(self)@ == old(self)@.subrange(taken@.len() as int, old(self)@.len() as int),
            sorted_by_height(taken@),
            forall|a: int, b: int|
                0 <= a < taken@.len() && 0 <= b < final(self)@.len() ==> taken@[a].height < final(self)@[b].height,
    {
        let ghost os = self.records@;
        let n: usize = if limit <= self.records.len() {
            limit
        } else {
            self.records.len()
        };
        let mut taken: Vec<Record<T>> = Vec::new();
        let mut k: usize = 0;
        while k < n
            invariant
                k <= n <= os.len(),
                taken@ =~= os.subrange(0, k as int),
                self.records@ =~= os.subrange(k as int, os.len() as int),
            decreases n - k,
        {
            taken.push(self.records.remove(0));
            proof {
                assert(taken@ =~= os.subrange(0, k + 1 as int));
                assert(self.records@ =~= os.subrange(k + 1 as int, os.len() as int));
            }
            k += 1;
        }
        proof {
            assert(sorted_by_height(os));
            assert forall|a: int, b: int| 0 <= a < b < taken@.len() implies taken@[a].height
                < taken@[b].height by {
                assert(taken@[a] == os[a] && taken@[b] == os[b]);
            }
            assert forall|a: int, b: int|
                0 <= a < taken@.len() && 0 <= b
                    < self.records@.len() implies taken@[a].height < self.records@[b].height by {
                assert(taken@[a] == os[a] && self.records@[b] == os[b + n]);
            }
            assert forall|a: int, b: int| 0 <= a < b < self.records@.len() implies self.records@[a].height
                < self.records@[b].height by {
                assert(self.records@[a] == os[a + n] && self.records@[b] == os[b + n]);
            }
        }
        taken
    }
}

} // verus!
