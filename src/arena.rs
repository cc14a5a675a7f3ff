use vstd::prelude::*;

verus! {

/// A generational reference into a [`Pool`]: the index of a slot and the
/// generation the slot had when the value was stored. A handle of generation
/// zero names nothing, ever.
#[derive(Clone, Copy, PartialEq, Eq, Structural, Debug, Hash)]
pub struct Handle {
    pub index: u32,
    pub generation: u32,
}

impl Handle {
    /// The handle that names nothing.
    pub fn none() -> (r: Handle)
        ensures
            r.index == 0,
            r.generation == 0,
    {
        Handle { index: 0, generation: 0 }
    }

    pub open spec fn is_none_spec(&self) -> bool {
        self.generation == 0
    }

    pub fn is_none(&self) -> (r: bool)
        ensures
            r == self.is_none_spec(),
    {
        self.generation == 0
    }

    pub fn is_some(&self) -> (r: bool)
        ensures
            r == !self.is_none_spec(),
    {
        self.generation != 0
    }
}

/// Why a handle could not be dereferenced.
#[derive(Clone, Copy, PartialEq, Eq, Structural, Debug)]
pub enum LookupError {
    /// No value was ever stored under this handle.
    NeverExisted,
    /// A value was stored under this handle and has since been freed.
    Freed,
}

struct Slot<T> {
    generation: u32,
    payload: Option<T>,
}

/// An arena of values addressed by generational handles. Freed slots are
/// reused with a new generation, so a stale handle never reaches the value
/// that took its place.
pub struct Pool<T> {
    slots: Vec<Slot<T>>,
}

impl<T> View for Pool<T> {
    type V = Map<Handle, T>;

    open spec fn view(&self) -> Map<Handle, T> {
        Map::new(|h: Handle| self.holds(h), |h: Handle| self.payloads()[h.index as int]->0)
    }
}

impl<T> Pool<T> {
    /// The generation of each slot, by index.
    pub closed spec fn generations(&self) -> Seq<u32> {
        self.slots@.map_values(|s: Slot<T>| s.generation)
    }

    /// What each slot holds, by index.
    pub closed spec fn payloads(&self) -> Seq<Option<T>> {
        self.slots@.map_values(|s: Slot<T>| s.payload)
    }

    pub open spec fn wf(&self) -> bool {
        &&& self.generations().len() == self.payloads().len()
        &&& self.payloads().len() <= u32::MAX
        &&& forall|i: int| 0 <= i < self.generations().len() ==> #[trigger] self.generations()[i] >= 1
    }

    /// The handle that currently names slot `i`.
    pub open spec fn handle_at(&self, i: int) -> Handle {
        Handle { index: i as u32, generation: self.generations()[i] }
    }

    pub open spec fn holds(&self, h: Handle) -> bool {
        &&& h.index < self.payloads().len()
        &&& self.generations()[h.index as int] == h.generation
        &&& self.payloads()[h.index as int] is Some
    }

    pub fn new() -> (r: Pool<T>)
        ensures
            r.wf(),
            r@ == Map::<Handle, T>::empty(),
            r.payloads().len() == 0,
    {
        let r = Pool { slots: Vec::new() };
        assert(r@ =~= Map::<Handle, T>::empty());
        r
    }

    pub fn slot_count(&self) -> (r: usize)
        requires
            self.wf(),
        ensures
            r == self.payloads().len(),
    {
        self.slots.len()
    }

    /// Stores `value` and returns the handle that now names it: a free slot is
    /// reused under its next generation, otherwise a slot is appended.
    pub fn spawn(&mut self, value: T) -> (h: Handle)
        requires
            old(self).wf(),
            old(self).payloads().len() < u32::MAX,
        ensures
            final(self).wf(),
            !h.is_none_spec(),
            !old(self)@.contains_key(h),
            final(self)@ == old(self)@.insert(h, value),
            final(self).payloads().len() <= old(self).payloads().len() + 1,
    {
        let n = self.slots.len();
        let mut i: usize = 0;
        while i < n
            invariant
                n == self.slots@.len(),
                n < u32::MAX,
                self == old(self),
                old(self).wf(),
                i <= n,
                forall|j: int|
                    0 <= j < i ==> #[trigger] self.slots@[j].payload is Some
                        || self.slots@[j].generation == u32::MAX,
            decreases n - i,
        {
            if self.slots[i].payload.is_none() && self.slots[i].generation < u32::MAX {
                let g = self.slots[i].generation + 1;
                let h = Handle { index: i as u32, generation: g };
                self.slots[i] = Slot { generation: g, payload: Some(value) };
                proof {
                    assert(h.index as int == i);
                    assert(self.generations() =~= old(self).generations().update(i as int, g));
                    assert(self.payloads() =~= old(self).payloads().update(i as int, Some(value)));
                    assert(self@ =~= old(self)@.insert(h, value));
                }
                return h;
            }
            i = i + 1;
        }
        let h = Handle { index: n as u32, generation: 1 };
        self.slots.push(Slot { generation: 1, payload: Some(value) });
        proof {
            assert(self.generations() =~= old(self).generations().push(1));
            assert(self.payloads() =~= old(self).payloads().push(Some(value)));
            assert(self@ =~= old(self)@.insert(h, value));
        }
        h
    }

    pub fn is_valid_handle(&self, h: Handle) -> (r: bool)
        requires
            self.wf(),
        ensures
            r == self@.contains_key(h),
    {
        let i = h.index as usize;
        i < self.slots.len() && self.slots[i].generation == h.generation
            && self.slots[i].payload.is_some()
    }

    /// The value that `h` names, if it names one.
    pub fn try_borrow(&self, h: Handle) -> (r: Option<&T>)
        requires
            self.wf(),
        ensures
            self@.contains_key(h) ==> r == Some(&self@[h]),
            !self@.contains_key(h) ==> r is None,
    {
        let i = h.index as usize;
        if i < self.slots.len() && self.slots[i].generation == h.generation {
            match &self.slots[i].payload {
                Some(v) => Some(v),
                None => None,
            }
        } else {
            None
        }
    }

    /// Like [`Pool::try_borrow`], telling apart a handle that never named a
    /// value from one whose value was freed.
    pub fn lookup(&self, h: Handle) -> (r: Result<&T, LookupError>)
        requires
            self.wf(),
        ensures
            self@.contains_key(h) ==> r == Ok::<&T, LookupError>(&self@[h]),
            !self@.contains_key(h) ==> (r == Err::<&T, LookupError>(
                if h.generation == 0 || h.index >= self.payloads().len()
                    || h.generation > self.generations()[h.index as int] {
                    LookupError::NeverExisted
                } else {
                    LookupError::Freed
                },
            )),
    {
        let i = h.index as usize;
        if h.generation == 0 || i >= self.slots.len() || h.generation > self.slots[i].generation {
            Err(LookupError::NeverExisted)
        } else if h.generation < self.slots[i].generation {
            Err(LookupError::Freed)
        } else {
            match &self.slots[i].payload {
                Some(v) => Ok(v),
                None => Err(LookupError::Freed),
            }
        }
    }

    /// Replaces the value that `h` names.
    pub fn set(&mut self, h: Handle, value: T)
        requires
            old(self).wf(),
            old(self)@.contains_key(h),
        ensures
            final(self).wf(),
            final(self)@ == old(self)@.insert(h, value),
            final(self).generations() == old(self).generations(),
            final(self).payloads().len() == old(self).payloads().len(),
    {
        let i = h.index as usize;
        self.slots[i] = Slot { generation: h.generation, payload: Some(value) };
        proof {
            assert(self.generations() =~= old(self).generations());
            assert(self.payloads() =~= old(self).payloads().update(i as int, Some(value)));
            assert(self@ =~= old(self)@.insert(h, value));
        }
    }

    /// Frees the value that `h` names and hands it back; a handle that names
    /// nothing changes nothing.
    pub fn free(&mut self, h: Handle) -> (r: Option<T>)
        requires
            old(self).wf(),
        ensures
            final(self).wf(),
            final(self)@ == old(self)@.remove(h),
            final(self).payloads().len() == old(self).payloads().len(),
            old(self)@.contains_key(h) ==> r == Some(old(self)@[h]),
            !old(self)@.contains_key(h) ==> r is None,
    {
        let i = h.index as usize;
        if i < self.slots.len() && self.slots[i].generation == h.generation
            && self.slots[i].payload.is_some() {
            let taken = self.slots[i].payload.take();
            proof {
                assert(self.generations() =~= old(self).generations());
                assert(self.payloads() =~= old(self).payloads().update(i as int, None));
                assert(self@ =~= old(self)@.remove(h));
            }
            taken
        } else {
            assert(self@ =~= old(self)@.remove(h));
            None
        }
    }

    /// The handle and value of slot `i`, if it is occupied: slots are walked
    /// by index, which is the order in which the pool is iterated.
    pub fn entry(&self, i: usize) -> (r: Option<(Handle, &T)>)
        requires
            self.wf(),
            i < self.payloads().len(),
        ensures
            self.payloads()[i as int] is Some ==> r == Some((self.handle_at(i as int), &self.payloads()[i as int]->0)),
            self.payloads()[i as int] is None ==> r is None,
    {
        match &self.slots[i].payload {
            Some(v) => Some((Handle { index: i as u32, generation: self.slots[i].generation }, v)),
            None => None,
        }
    }
}

} // verus!
