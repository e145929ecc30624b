use vstd::prelude::*;

use crate::handle::Handle;

verus! {

/// One slot of a pool: the generation it is at, and the record it holds, if any.
pub struct Slot<T> {
    pub generation: u32,
    pub value: Option<T>,
}

/// Maps small generation-tagged handles to records, reusing freed slots.
///
/// A slot's generation grows on each free, so a stale handle never names the
/// record that later fills the same slot. A slot whose generation has reached
/// `u32::MAX` is retired on its last free and never handed out again.
pub struct HandlePool<T> {
    slots: Vec<Slot<T>>,
    free: Vec<u32>,
    issued: Ghost<Set<Handle>>,
}

/// The handle that names slot `i` at its current generation.
pub open spec fn handle_at(i: int, generation: u32) -> Handle {
    Handle { index: i as u32, generation }
}

impl<T> View for HandlePool<T> {
    type V = Map<Handle, T>;

    /// The live records, by handle.
    closed spec fn view(&self) -> Map<Handle, T> {
        Map::new(
            |h: Handle| self.live(h),
            |h: Handle| self.slots@[h.index as int].value->Some_0,
        )
    }
}

impl<T> HandlePool<T> {
    closed spec fn live(&self, h: Handle) -> bool {
        &&& (h.index as int) < self.slots@.len()
        &&& self.slots@[h.index as int].generation == h.generation
        &&& self.slots@[h.index as int].value is Some
    }

    /// Every handle this pool has ever handed out.
    pub closed spec fn issued(&self) -> Set<Handle> {
        self.issued@
    }

    /// No slot can be reused and no slot can be added.
    pub closed spec fn exhausted(&self) -> bool {
        self.free@.len() == 0 && self.slots@.len() >= u32::MAX
    }

    pub closed spec fn wf(&self) -> bool {
        &&& self.slots@.len() <= u32::MAX
        &&& forall|k: int|
            0 <= k < self.free@.len() ==> {
                let i = #[trigger] self.free@[k] as int;
                &&& i < self.slots@.len()
                &&& self.slots@[i].value is None
                &&& !self.issued@.contains(handle_at(i, self.slots@[i].generation))
            }
        &&& forall|a: int, b: int|
            0 <= a < self.free@.len() && 0 <= b < self.free@.len() && a != b ==> #[trigger] self.free@[a]
                != #[trigger] self.free@[b]
        &&& forall|h: Handle| #[trigger]
            self.issued@.contains(h) ==> (h.index as int) < self.slots@.len()
                && h.generation <= self.slots@[h.index as int].generation
        &&& forall|i: int|
            0 <= i < self.slots@.len() && (#[trigger] self.slots@[i]).value is Some
                ==> self.issued@.contains(handle_at(i, self.slots@[i].generation))
    }

    pub fn new() -> (r: HandlePool<T>)
        ensures
            r.wf(),
            r@ == Map::<Handle, T>::empty(),
            r.issued() == Set::<Handle>::empty(),
            !r.exhausted(),
    {
        let r = HandlePool { slots: Vec::new(), free: Vec::new(), issued: Ghost(Set::empty()) };
        assert(r@ =~= Map::<Handle, T>::empty());
        r
    }

    /// Stores `value` under a handle that was never handed out before, or gives
    /// the value back when no slot is left.
    pub fn create(&mut self, value: T) -> (r: Result<Handle, T>)
        requires
            old(self).wf(),
        ensures
            final(self).wf(),
            match r {
                Ok(h) => {
                    &&& !old(self).exhausted()
                    &&& !old(self).issued().contains(h)
                    &&& !old(self)@.contains_key(h)
                    &&& final(self)@ == old(self)@.insert(h, value)
                    &&& final(self).issued() == old(self).issued().insert(h)
                },
                Err(v) => {
                    &&& old(self).exhausted()
                    &&& v == value
                    &&& *final(self) == *old(self)
                },
            },
    {
        proof {
            self.lemma_live_issued();
        }
        if self.free.len() > 0 {
            let i = self.free.pop().unwrap();
            let ghost k = self.free@.len() as int;
            assert(old(self).free@[k] == i);
            let generation = self.slots[i as usize].generation;
            let h = Handle { index: i, generation };
            proof {
                self.issued@ = self.issued@.insert(h);
            }
            self.slots.set(i as usize, Slot { generation, value: Some(value) });
            proof {
                assert forall|a: int| 0 <= a < self.free@.len() implies self.free@[a] != i by {
                    assert(old(self).free@[a] == self.free@[a]);
                }
                assert forall|hh: Handle| #[trigger]
                    self.issued@.contains(hh) implies (hh.index as int) < self.slots@.len()
                    && hh.generation <= self.slots@[hh.index as int].generation by {
                    if hh != h {
                        assert(old(self).issued@.contains(hh));
                    }
                }
                assert forall|k2: int| 0 <= k2 < self.free@.len() implies {
                    let j = #[trigger] self.free@[k2] as int;
                    &&& j < self.slots@.len()
                    &&& self.slots@[j].value is None
                    &&& !self.issued@.contains(handle_at(j, self.slots@[j].generation))
                } by {
                    assert(old(self).free@[k2] == self.free@[k2]);
                    assert(self.free@[k2] != i);
                }
                assert(self@ =~= old(self)@.insert(h, value));
            }
            Ok(h)
        } else if self.slots.len() < 0xffff_ffffusize {
            let i = self.slots.len() as u32;
            let h = Handle { index: i, generation: 0 };
            proof {
                self.issued@ = self.issued@.insert(h);
            }
            self.slots.push(Slot { generation: 0, value: Some(value) });
            proof {
                assert forall|hh: Handle| #[trigger]
                    self.issued@.contains(hh) implies (hh.index as int) < self.slots@.len()
                    && hh.generation <= self.slots@[hh.index as int].generation by {
                    if hh != h {
                        assert(old(self).issued@.contains(hh));
                    }
                }
                assert forall|j: int|
                    0 <= j < self.slots@.len() && (#[trigger] self.slots@[j]).value
                        is Some implies self.issued@.contains(
                    handle_at(j, self.slots@[j].generation),
                ) by {
                    if j < old(self).slots@.len() {
                        assert(old(self).slots@[j] == self.slots@[j]);
                    }
                }
                assert(self@ =~= old(self)@.insert(h, value));
            }
            Ok(h)
        } else {
            Err(value)
        }
    }

    /// Every live handle was handed out by this pool.
    pub proof fn lemma_live_issued(&self)
        requires
            self.wf(),
        ensures
            forall|h: Handle| self@.contains_key(h) ==> #[trigger] self.issued().contains(h),
    {
        assert forall|h: Handle| self@.contains_key(h) implies #[trigger] self.issued().contains(h) by {
            assert(handle_at(h.index as int, self.slots@[h.index as int].generation) == h);
        }
    }

    /// The record named by `h`, if `h` is live.
    pub fn get(&self, h: Handle) -> (r: Option<&T>)
        requires
            self.wf(),
        ensures
            match r {
                Some(v) => self@.contains_key(h) && *v == self@[h],
                None => !self@.contains_key(h),
            },
    {
        if (h.index as usize) < self.slots.len() {
            let slot = &self.slots[h.index as usize];
            if slot.generation == h.generation {
                match &slot.value {
                    Some(v) => Some(v),
                    None => None,
                }
            } else {
                None
            }
        } else {
            None
        }
    }

    /// Whether `h` names a live record.
    pub fn contains(&self, h: Handle) -> (r: bool)
        requires
            self.wf(),
        ensures
            r == self@.contains_key(h),
    {
        self.get(h).is_some()
    }

    /// Puts `value` in place of the record named by `h` and hands the old one
    /// back; a stale or unknown handle leaves the pool as it is.
    pub fn replace(&mut self, h: Handle, value: T) -> (r: Option<T>)
        requires
            old(self).wf(),
        ensures
            final(self).wf(),
            final(self).issued() == old(self).issued(),
            final(self).exhausted() == old(self).exhausted(),
            match r {
                Some(v) => old(self)@.contains_key(h) && v == old(self)@[h] && final(self)@
                    == old(self)@.insert(h, value),
                None => !old(self)@.contains_key(h) && final(self)@ == old(self)@,
            },
    {
        if (h.index as usize) >= self.slots.len() {
            return None;
        }
        let i = h.index as usize;
        if self.slots[i].generation != h.generation || self.slots[i].value.is_none() {
            return None;
        }
        let mut slot = Slot { generation: h.generation, value: Some(value) };
        self.slots.set_and_swap(i, &mut slot);
        proof {
            assert forall|k: int| 0 <= k < self.free@.len() implies {
                let j = #[trigger] self.free@[k] as int;
                &&& j < self.slots@.len()
                &&& self.slots@[j].value is None
                &&& !self.issued@.contains(handle_at(j, self.slots@[j].generation))
            } by {
                assert(old(self).free@[k] == self.free@[k]);
            }
            assert(self@ =~= old(self)@.insert(h, value));
        }
        slot.value
    }

    /// Removes the record named by `h` and hands it back; a stale or unknown
    /// handle leaves the pool as it is.
    pub fn free(&mut self, h: Handle) -> (r: Option<T>)
        requires
            old(self).wf(),
        ensures
            final(self).wf(),
            final(self).issued() == old(self).issued(),
            final(self)@ == old(self)@.remove(h),
            !final(self)@.contains_key(h),
            match r {
                Some(v) => old(self)@.contains_key(h) && v == old(self)@[h],
                None => !old(self)@.contains_key(h) && final(self)@ == old(self)@,
            },
            !old(self).exhausted() ==> !final(self).exhausted(),
    {
        if (h.index as usize) >= self.slots.len() {
            assert(self@ =~= old(self)@.remove(h));
            return None;
        }
        let i = h.index as usize;
        if self.slots[i].generation != h.generation || self.slots[i].value.is_none() {
            assert(self@ =~= old(self)@.remove(h));
            return None;
        }
        let generation = self.slots[i].generation;
        let mut slot = Slot { generation, value: None };
        if generation < u32::MAX {
            slot.generation = generation + 1;
        }
        self.slots.set_and_swap(i, &mut slot);
        let old_slot = slot;
        let ghost retired = generation == u32::MAX;
        if generation < u32::MAX {
            self.free.push(h.index);
        }
        proof {
            assert(handle_at(i as int, generation) == h);
            assert forall|hh: Handle| #[trigger]
                self.issued@.contains(hh) implies (hh.index as int) < self.slots@.len()
                && hh.generation <= self.slots@[hh.index as int].generation by {
                assert(old(self).issued@.contains(hh));
            }
            assert forall|k: int| 0 <= k < self.free@.len() implies {
                let j = #[trigger] self.free@[k] as int;
                &&& j < self.slots@.len()
                &&& self.slots@[j].value is None
                &&& !self.issued@.contains(handle_at(j, self.slots@[j].generation))
            } by {
                if k < old(self).free@.len() {
                    assert(old(self).free@[k] == self.free@[k]);
                    assert(self.free@[k] as int != i);
                } else {
                    if self.issued@.contains(handle_at(i as int, (generation + 1) as u32)) {
                        assert(old(self).issued@.contains(handle_at(i as int, (generation + 1) as u32)));
                    }
                }
            }
            assert forall|a: int, b: int|
                0 <= a < self.free@.len() && 0 <= b < self.free@.len() && a != b implies #[trigger] self.free@[a]
                != #[trigger] self.free@[b] by {
                if a < old(self).free@.len() && b < old(self).free@.len() {
                    assert(old(self).free@[a] == self.free@[a]);
                    assert(old(self).free@[b] == self.free@[b]);
                } else if a < old(self).free@.len() {
                    assert(old(self).free@[a] == self.free@[a]);
                } else if b < old(self).free@.len() {
                    assert(old(self).free@[b] == self.free@[b]);
                }
            }
            assert(self@ =~= old(self)@.remove(h));
        }
        old_slot.value
    }
}

} // verus!
