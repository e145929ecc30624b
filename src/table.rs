use vstd::prelude::*;

use crate::handle::Handle;

verus! {

/// Whether some handle of `m` names slot `i`, at any generation.
pub open spec fn index_taken<V>(m: Map<Handle, V>, i: u32) -> bool {
    exists|h: Handle| #[trigger] m.contains_key(h) && h.index == i
}

/// Values keyed by handle, at most one per slot index, stored by index.
pub struct ObjectTable<V> {
    entries: Vec<Option<(u32, V)>>,
}

impl<V> View for ObjectTable<V> {
    type V = Map<Handle, V>;

    closed spec fn view(&self) -> Map<Handle, V> {
        Map::new(
            |h: Handle|
                (h.index as int) < self.entries@.len() && self.entries@[h.index as int] is Some
                    && self.entries@[h.index as int]->Some_0.0 == h.generation,
            |h: Handle| self.entries@[h.index as int]->Some_0.1,
        )
    }
}

impl<V> ObjectTable<V> {
    pub fn new() -> (r: ObjectTable<V>)
        ensures
            r@ == Map::<Handle, V>::empty(),
    {
        let r = ObjectTable { entries: Vec::new() };
        assert(r@ =~= Map::<Handle, V>::empty());
        r
    }

    proof fn lemma_taken(&self, i: int)
        requires
            0 <= i < self.entries@.len(),
            0 <= i <= u32::MAX,
        ensures
            self.entries@[i] is Some <==> index_taken(self@, i as u32),
    {
        if self.entries@[i] is Some {
            let h = Handle { index: i as u32, generation: self.entries@[i]->Some_0.0 };
            assert(self@.contains_key(h));
        }
    }

    /// The value stored under `h`, if `h` is in the table.
    pub fn get(&self, h: Handle) -> (r: Option<&V>)
        ensures
            match r {
                Some(v) => self@.contains_key(h) && *v == self@[h],
                None => !self@.contains_key(h),
            },
    {
        if (h.index as usize) < self.entries.len() {
            match &self.entries[h.index as usize] {
                Some(e) => {
                    if e.0 == h.generation {
                        Some(&e.1)
                    } else {
                        None
                    }
                },
                None => None,
            }
        } else {
            None
        }
    }

    /// Stores `v` under `h` unless some handle of the same slot is there; says
    /// whether it did.
    pub fn insert(&mut self, h: Handle, v: V) -> (r: bool)
        ensures
            r == !index_taken(old(self)@, h.index),
            r ==> final(self)@ == old(self)@.insert(h, v),
            !r ==> final(self)@ == old(self)@,
    {
        let i = h.index as usize;
        if i < self.entries.len() {
            proof {
                self.lemma_taken(i as int);
            }
            if self.entries[i].is_some() {
                return false;
            }
        } else {
            assert(!index_taken(self@, h.index));
            while self.entries.len() <= i
                invariant
                    old(self).entries@.len() <= self.entries@.len() <= i + 1,
                    forall|j: int|
                        0 <= j < self.entries@.len() ==> #[trigger] self.entries@[j] == if j
                            < old(self).entries@.len() {
                            old(self).entries@[j]
                        } else {
                            None
                        },
                decreases i + 1 - self.entries@.len(),
            {
                self.entries.push(None);
            }
            assert(self@ =~= old(self)@);
        }
        self.entries.set(i, Some((h.generation, v)));
        assert(self@ =~= old(self)@.insert(h, v)) by {
            assert forall|k: Handle| #[trigger]
                old(self)@.contains_key(k) && k != h implies k.index != h.index by {}
        }
        true
    }

    /// Puts `v` in place of the value under `h`, if `h` is in the table; says
    /// whether it did.
    pub fn replace(&mut self, h: Handle, v: V) -> (r: bool)
        ensures
            r == old(self)@.contains_key(h),
            r ==> final(self)@ == old(self)@.insert(h, v),
            !r ==> final(self)@ == old(self)@,
    {
        let i = h.index as usize;
        if i >= self.entries.len() {
            return false;
        }
        let found = match &self.entries[i] {
            Some(e) => e.0 == h.generation,
            None => false,
        };
        if !found {
            return false;
        }
        self.entries.set(i, Some((h.generation, v)));
        assert(self@ =~= old(self)@.insert(h, v));
        true
    }

    /// Removes `h` and hands back its value, if `h` is in the table.
    pub fn remove(&mut self, h: Handle) -> (r: Option<V>)
        ensures
            final(self)@ == old(self)@.remove(h),
            match r {
                Some(v) => old(self)@.contains_key(h) && v == old(self)@[h],
                None => !old(self)@.contains_key(h) && final(self)@ == old(self)@,
            },
    {
        let i = h.index as usize;
        if i >= self.entries.len() {
            assert(self@ =~= old(self)@.remove(h));
            return None;
        }
        let found = match &self.entries[i] {
            Some(e) => e.0 == h.generation,
            None => false,
        };
        if !found {
            assert(self@ =~= old(self)@.remove(h));
            return None;
        }
        let mut slot: Option<(u32, V)> = None;
        self.entries.set_and_swap(i, &mut slot);
        assert(self@ =~= old(self)@.remove(h));
        match slot {
            Some(e) => Some(e.1),
            None => None,
        }
    }
}

} // verus!
