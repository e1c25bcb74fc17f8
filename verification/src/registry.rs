//! Ordered, mutable collection of the known endpoints for one direction.
//!
//! Entries are appended on endpoint-appeared notifications and removed on
//! endpoint-removed notifications; no entry is mutated in place.  Positions
//! are never cached by consumers: they are recomputed through
//! [`EndpointRegistry::position_of`] at every resolution, so a membership
//! change can never leave a stale position in use.

use vstd::prelude::*;

verus! {

/// Position of `id` in `s`: the index of its first occurrence, or `None`
/// when `id` does not occur.  Under [`EndpointRegistry::wf`] an id occurs at
/// most once, so the first occurrence is the only one.
pub open spec fn spec_position_of(s: Seq<u32>, id: u32) -> Option<usize> {
    match s.index_of_first(id) {
        Some(i) => Some(i as usize),
        None => None,
    }
}

/// The id stored at `pos` in `s`, or `None` when `pos` is out of range.
pub open spec fn spec_id_at(s: Seq<u32>, pos: int) -> Option<u32> {
    if 0 <= pos < s.len() {
        Some(s[pos])
    } else {
        None
    }
}

/// The known endpoints of one direction, in presentation order.
///
/// The order is insertion order: stable until the next membership change,
/// with no further guarantee.  The registry is read by many consumers and
/// written only by the endpoint-enumeration notifications, one event-loop
/// turn at a time.
pub struct EndpointRegistry {
    order: Vec<u32>,
}

impl View for EndpointRegistry {
    type V = Seq<u32>;

    closed spec fn view(&self) -> Seq<u32> {
        self.order@
    }
}

impl EndpointRegistry {
    /// Well-formedness: every id in the registry is unique.
    pub open spec fn wf(&self) -> bool {
        self@.no_duplicates()
    }

    /// An empty registry, trivially well-formed.
    pub fn new() -> (r: EndpointRegistry)
        ensures
            r@ == Seq::<u32>::empty(),
            r.wf(),
    {
        EndpointRegistry { order: Vec::new() }
    }

    /// The registry is backed by a vector, so its length fits in `usize`.
    pub proof fn lemma_len_bound(&self)
        ensures
            self@.len() <= usize::MAX,
    {
        vstd::std_specs::vec::axiom_spec_len(&self.order);
    }

    /// Number of known endpoints.
    pub fn len(&self) -> (r: usize)
        ensures
            r == self@.len(),
    {
        self.order.len()
    }

    /// Whether `id` is currently a known endpoint.
    pub fn contains(&self, id: u32) -> (r: bool)
        ensures
            r == self@.contains(id),
    {
        let n = self.order.len();
        let mut i: usize = 0;
        while i < n
            invariant
                n == self@.len(),
                i <= n,
                forall|k: int| 0 <= k < i ==> self@[k] != id,
            decreases n - i,
        {
            if self.order[i] == id {
                return true;
            }
            i = i + 1;
        }
        false
    }

    /// Position of `id` in the current snapshot, freshly computed.
    pub fn position_of(&self, id: u32) -> (r: Option<usize>)
        ensures
            r == spec_position_of(self@, id),
    {
        let n = self.order.len();
        let mut i: usize = 0;
        while i < n
            invariant
                n == self@.len(),
                i <= n,
                forall|k: int| 0 <= k < i ==> self@[k] != id,
            decreases n - i,
        {
            if self.order[i] == id {
                proof {
                    self@.index_of_first_ensures(id);
                }
                return Some(i);
            }
            i = i + 1;
        }
        proof {
            self@.index_of_first_ensures(id);
        }
        None
    }

    /// The id at `pos` in the current snapshot.
    pub fn id_at(&self, pos: usize) -> (r: Option<u32>)
        ensures
            r == spec_id_at(self@, pos as int),
    {
        if pos < self.order.len() {
            Some(self.order[pos])
        } else {
            None
        }
    }

    /// Endpoint-appeared notification: appends `id` if absent, does nothing
    /// if it is already present (idempotent).
    pub fn insert(&mut self, id: u32)
        ensures
            final(self)@ == if old(self)@.contains(id) {
                old(self)@
            } else {
                old(self)@.push(id)
            },
            old(self).wf() ==> final(self).wf(),
    {
        if !self.contains(id) {
            let ghost pre = self@;
            self.order.push(id);
            proof {
                if pre.no_duplicates() {
                    assert forall|i: int, j: int|
                        0 <= i < self@.len() && 0 <= j < self@.len() && i != j implies self@[i]
                        != self@[j] by {
                        if i < pre.len() && j < pre.len() {
                        } else if i == pre.len() {
                            assert(self@[j] == pre[j]);
                            assert(pre.contains(id) <== pre[j] == id);
                        } else {
                            assert(self@[i] == pre[i]);
                            assert(pre.contains(id) <== pre[i] == id);
                        }
                    }
                }
            }
        }
    }

    /// Endpoint-removed notification: removes `id` if present; the positions
    /// of all later entries shift down by one.
    pub fn remove(&mut self, id: u32)
        ensures
            final(self)@ == old(self)@.remove_value(id),
            old(self).wf() ==> final(self).wf(),
    {
        proof {
            self@.index_of_first_ensures(id);
        }
        match self.position_of(id) {
            Some(p) => {
                let ghost pre = self@;
                self.order.remove(p);
                proof {
                    assert(pre.index_of_first(id) == Some(p as int));
                    assert(pre.remove_value(id) == pre.remove(p as int));
                    assert(self@ == pre.remove(p as int));
                    if pre.no_duplicates() {
                        pre.remove_ensures(p as int);
                        assert forall|i: int, j: int|
                            0 <= i < self@.len() && 0 <= j < self@.len() && i != j implies self@[i]
                            != self@[j] by {
                            let pi: int = if i < p { i } else { i + 1 };
                            let pj: int = if j < p { j } else { j + 1 };
                            assert(self@[i] == pre[pi]);
                            assert(self@[j] == pre[pj]);
                        }
                    }
                }
            },
            None => {},
        }
    }
}

/// Position-inverse law: for every id currently in the registry, looking the
/// id up by the position that `position_of` reports yields the same id back.
pub proof fn lemma_position_inverse(s: Seq<u32>, id: u32)
    requires
        s.len() <= usize::MAX,
        s.contains(id),
    ensures
        spec_position_of(s, id) matches Some(p) && spec_id_at(s, p as int) == Some(id),
{
    s.index_of_first_ensures(id);
}

/// Removal consistency: after removing an id, its position reads back as
/// `None`, and re-inserting the same id at the end restores a valid position
/// (the last one).
pub proof fn lemma_remove_then_reinsert(s: Seq<u32>, id: u32)
    requires
        s.len() <= usize::MAX,
        s.no_duplicates(),
        s.contains(id),
    ensures
        spec_position_of(s.remove_value(id), id) is None,
        spec_position_of(s.remove_value(id).push(id), id) == Some(
            s.remove_value(id).len() as usize,
        ),
{
    s.index_of_first_ensures(id);
    let p = s.index_of_first(id).unwrap();
    let removed = s.remove(p);
    s.remove_ensures(p);
    assert(forall|k: int| 0 <= k < removed.len() ==> removed[k] != id);
    removed.index_of_first_ensures(id);
    let t = removed.push(id);
    assert(t[removed.len() as int] == id);
    t.index_of_first_ensures(id);
    match t.index_of_first(id) {
        Some(j) => {
            if j < removed.len() {
                assert(t[j] == removed[j]);
            }
            assert(j == removed.len());
        },
        None => {
            assert(t.contains(id));
        },
    }
}

} // verus!
