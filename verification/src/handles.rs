use crate::error::CryptoError;
use vstd::prelude::*;

verus! {

/// An opaque token for one object that a [`HandleRegistry`] holds.
///
/// A handle is minted by `register` and by nothing else. It stays valid until it
/// is closed, and a registry never mints the same handle twice.
#[derive(Clone, Copy, Debug, PartialEq, Eq, Hash, Structural)]
pub struct Handle {
    slot: usize,
    generation: u64,
}

/// What one slot of the registry holds.
enum Slot<T> {
    /// Free for the next registration, under the entry's current generation.
    Vacant,
    /// In use; the handle made of the slot's index and the entry's generation
    /// is live.
    Occupied(T),
    /// Its last generation was given out and released: it is never used again.
    Retired,
}

struct Entry<T> {
    generation: u64,
    slot: Slot<T>,
}

/// Owns objects of type `T` and hands out a [`Handle`] for each.
///
/// The model of a registry is the map from its live handles to the objects they
/// name (`self@`), together with the set of all handles it has ever minted
/// (`self.issued()`).
pub struct HandleRegistry<T> {
    entries: Vec<Entry<T>>,
    /// Indices of vacant slots, each once.
    free: Vec<usize>,
}

impl<T> View for HandleRegistry<T> {
    type V = Map<Handle, T>;

    closed spec fn view(&self) -> Map<Handle, T> {
        Map::new(
            |h: Handle| self.holds(h),
            |h: Handle| self.entries@[h.slot as int].slot->Occupied_0,
        )
    }
}

impl<T> HandleRegistry<T> {
    #[verifier::type_invariant]
    spec fn wf(self) -> bool {
        &&& forall|k: int|
            0 <= k < self.free@.len() ==> {
                &&& (#[trigger] self.free@[k]) < self.entries@.len()
                &&& self.entries@[self.free@[k] as int].slot is Vacant
            }
        &&& forall|j: int, k: int|
            0 <= j < k < self.free@.len() ==> self.free@[j] != self.free@[k]
    }

    spec fn holds(self, h: Handle) -> bool {
        &&& h.slot < self.entries@.len()
        &&& self.entries@[h.slot as int].generation == h.generation
        &&& self.entries@[h.slot as int].slot is Occupied
    }

    /// Every handle that this registry has minted, live or released.
    pub closed spec fn issued(self) -> Set<Handle> {
        Set::new(
            |h: Handle|
                {
                    &&& h.slot < self.entries@.len()
                    &&& {
                        ||| h.generation < self.entries@[h.slot as int].generation
                        ||| {
                            &&& h.generation == self.entries@[h.slot as int].generation
                            &&& !(self.entries@[h.slot as int].slot is Vacant)
                        }
                    }
                },
        )
    }

    /// `after` is `before` with `value` stored under the handle `h`, which
    /// `before` had never minted.
    pub open spec fn registers(before: Self, after: Self, value: T, h: Handle) -> bool {
        &&& !before.issued().contains(h)
        &&& after@ == before@.insert(h, value)
        &&& after.issued() == before.issued().insert(h)
    }

    /// `after` is `before` without the live handle `h`.
    pub open spec fn releases(before: Self, after: Self, h: Handle) -> bool {
        &&& before@.contains_key(h)
        &&& after@ == before@.remove(h)
        &&& after.issued() == before.issued()
    }

    /// `after` is `before` with the object under the live handle `h` replaced by
    /// `value`.
    pub open spec fn replaces(before: Self, after: Self, h: Handle, value: T) -> bool {
        &&& before@.contains_key(h)
        &&& after@ == before@.insert(h, value)
        &&& after.issued() == before.issued()
    }

    /// `after` comes from `before` by one registration, replacement or
    /// release, or holds and has minted what `before` did.
    pub open spec fn steps(before: Self, after: Self) -> bool {
        ||| after@ == before@ && after.issued() == before.issued()
        ||| exists|h: Handle, value: T| #[trigger] Self::registers(before, after, value, h)
        ||| exists|h: Handle, value: T| #[trigger] Self::replaces(before, after, h, value)
        ||| exists|h: Handle| #[trigger] Self::releases(before, after, h)
    }

    /// A registry that holds nothing and has minted nothing.
    pub fn new() -> (r: Self)
        ensures
            r@ == Map::<Handle, T>::empty(),
            r.issued() == Set::<Handle>::empty(),
    {
        HandleRegistry { entries: Vec::new(), free: Vec::new() }
    }

    /// Stores `value` under a handle that this registry has never minted before
    /// and returns the handle.
    pub fn register(&mut self, value: T) -> (h: Handle)
        ensures
            Self::registers(*old(self), *final(self), value, h),
    {
        proof {
            use_type_invariant(&*self);
        }
        let mut free: Vec<usize> = Vec::new();
        let mut entries: Vec<Entry<T>> = Vec::new();
        std::mem::swap(&mut free, &mut self.free);
        std::mem::swap(&mut entries, &mut self.entries);
        let h = match free.pop() {
            Some(slot) => {
                let generation = entries[slot].generation;
                entries[slot].slot = Slot::Occupied(value);
                Handle { slot, generation }
            },
            None => {
                let slot = entries.len();
                entries.push(Entry { generation: 0, slot: Slot::Occupied(value) });
                Handle { slot, generation: 0 }
            },
        };
        self.entries = entries;
        self.free = free;
        assert(self@ =~= old(self)@.insert(h, value));
        assert(self.issued() =~= old(self).issued().insert(h));
        h
    }

    /// The object that `h` names, or `InvalidHandle` where `h` is not live.
    pub fn get(&self, h: Handle) -> (r: Result<&T, CryptoError>)
        ensures
            match r {
                Ok(value) => self@.contains_key(h) && *value == self@[h],
                Err(e) => !self@.contains_key(h) && e == CryptoError::InvalidHandle,
            },
    {
        if h.slot < self.entries.len() && self.entries[h.slot].generation == h.generation {
            match &self.entries[h.slot].slot {
                Slot::Occupied(value) => Ok(value),
                _ => Err(CryptoError::InvalidHandle),
            }
        } else {
            Err(CryptoError::InvalidHandle)
        }
    }

    /// The object that `h` names, for changing it in place, or `InvalidHandle`
    /// where `h` is not live. What the caller leaves behind the reference is what
    /// the registry holds under `h` afterwards; nothing else changes.
    pub fn get_mut(&mut self, h: Handle) -> (r: Result<&mut T, CryptoError>)
        ensures
            match r {
                Ok(value) => {
                    &&& old(self)@.contains_key(h)
                    &&& *value == old(self)@[h]
                    &&& final(self)@ =~= old(self)@.insert(h, *final(value))
                    &&& final(self).issued() =~= old(self).issued()
                },
                Err(e) => {
                    &&& !old(self)@.contains_key(h)
                    &&& e == CryptoError::InvalidHandle
                    &&& *final(self) == *old(self)
                },
            },
    {
        proof {
            use_type_invariant(&*self);
        }
        if h.slot >= self.entries.len() || self.entries[h.slot].generation != h.generation {
            return Err(CryptoError::InvalidHandle);
        }
        match &self.entries[h.slot].slot {
            Slot::Occupied(_) => {},
            _ => {
                return Err(CryptoError::InvalidHandle);
            },
        }
        match &mut self.entries[h.slot].slot {
            Slot::Occupied(value) => Ok(value),
            _ => Err(CryptoError::InvalidHandle),
        }
    }

    /// Releases `h`: the object it names is dropped and `h` is never valid
    /// again. Fails with `InvalidHandle`, and changes nothing, where `h` is not
    /// live.
    pub fn close(&mut self, h: Handle) -> (r: Result<(), CryptoError>)
        ensures
            match r {
                Ok(()) => Self::releases(*old(self), *final(self), h),
                Err(e) => {
                    &&& !old(self)@.contains_key(h)
                    &&& e == CryptoError::InvalidHandle
                    &&& *final(self) == *old(self)
                },
            },
    {
        proof {
            use_type_invariant(&*self);
        }
        if h.slot >= self.entries.len() || self.entries[h.slot].generation != h.generation {
            return Err(CryptoError::InvalidHandle);
        }
        match &self.entries[h.slot].slot {
            Slot::Occupied(_) => {},
            _ => {
                return Err(CryptoError::InvalidHandle);
            },
        }
        let mut free: Vec<usize> = Vec::new();
        let mut entries: Vec<Entry<T>> = Vec::new();
        std::mem::swap(&mut free, &mut self.free);
        std::mem::swap(&mut entries, &mut self.entries);
        if h.generation < u64::MAX {
            entries[h.slot] = Entry { generation: h.generation + 1, slot: Slot::Vacant };
            free.push(h.slot);
        } else {
            entries[h.slot] = Entry { generation: h.generation, slot: Slot::Retired };
        }
        self.entries = entries;
        self.free = free;
        assert(self@ =~= old(self)@.remove(h));
        assert(self.issued() =~= old(self).issued());
        Ok(())
    }

    /// Every live handle was minted by this registry.
    pub proof fn lemma_live_handles_are_issued(self, h: Handle)
        requires
            self@.contains_key(h),
        ensures
            self.issued().contains(h),
    {
    }

    /// A handle that was minted and has been released is still released after
    /// the next step, whatever the step is.
    pub proof fn lemma_released_handle_stays_invalid(before: Self, after: Self, released: Handle)
        requires
            before.issued().contains(released),
            !before@.contains_key(released),
            Self::steps(before, after),
        ensures
            after.issued().contains(released),
            !after@.contains_key(released),
    {
    }

    /// A handle that was minted and has been released is never live again:
    /// along any sequence of steps it stays released, so every later `get`,
    /// `get_mut` and `close` on it fails with `InvalidHandle`.
    pub proof fn lemma_released_handle_is_never_live_again(history: Seq<Self>, released: Handle)
        requires
            history.len() > 0,
            forall|i: int|
                0 <= i < history.len() - 1 ==> Self::steps(#[trigger] history[i], history[i + 1]),
            history[0].issued().contains(released),
            !history[0]@.contains_key(released),
        ensures
            forall|i: int|
                0 <= i < history.len() ==> {
                    &&& (#[trigger] history[i]).issued().contains(released)
                    &&& !history[i]@.contains_key(released)
                },
        decreases history.len(),
    {
        if history.len() > 1 {
            let earlier = history.drop_last();
            Self::lemma_released_handle_is_never_live_again(earlier, released);
            let last = history.len() - 1;
            assert(earlier[last - 1] == history[last - 1]);
            Self::lemma_released_handle_stays_invalid(
                history[last - 1],
                history[last],
                released,
            );
            assert forall|i: int| 0 <= i < history.len() implies {
                &&& (#[trigger] history[i]).issued().contains(released)
                &&& !history[i]@.contains_key(released)
            } by {
                if i < last {
                    assert(earlier[i] == history[i]);
                }
            }
        }
    }
}

} // verus!
