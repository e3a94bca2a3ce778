//! The objects that the host holds on to, each under a numeric handle.
//!
//! The host is given a number for each object that is created for it, and
//! names the object by that number in every later call, until it destroys
//! the object. A number is never given out twice, so a handle that has been
//! destroyed names nothing from then on.

use vstd::prelude::*;

verus! {

/// What stands under a handle that was given out.
enum Slot<T> {
    /// The object that the handle names.
    Held(T),
    /// Nothing at present: the object is out for a call, and will be put
    /// back.
    Lent,
    /// Nothing, for good: the object was destroyed.
    Gone,
}

/// Owns the objects of the type `T` that the host holds handles to.
pub struct HandleRegistry<T> {
    slots: Vec<Slot<T>>,
}

impl<T> HandleRegistry<T> {
    /// The objects that are held, each under its handle.
    pub closed spec fn view(&self) -> Map<usize, T> {
        Map::new(
            |handle: usize|
                1 <= handle <= self.slots@.len() && self.slots@[handle - 1] is Held,
            |handle: usize| self.slots@[handle - 1]->Held_0,
        )
    }

    /// The handles whose objects are out for a call.
    pub closed spec fn lent(&self) -> Set<usize> {
        Set::new(|handle: usize| 1 <= handle <= self.slots@.len() && self.slots@[handle - 1] is Lent)
    }

    /// The handles whose objects were destroyed.
    pub closed spec fn gone(&self) -> Set<usize> {
        Set::new(|handle: usize| 1 <= handle <= self.slots@.len() && self.slots@[handle - 1] is Gone)
    }

    /// How many handles have been given out so far.
    pub closed spec fn issued(&self) -> nat {
        self.slots@.len()
    }

    /// Every handle that was given out, and no other, stands for an object
    /// that is held, for one that is out for a call, or for one that was
    /// destroyed, and for one of them only.
    pub proof fn lemma_handle_states(&self, handle: usize)
        ensures
            (1 <= handle <= self.issued()) == (self@.dom().contains(handle) || self.lent().contains(
                handle,
            ) || self.gone().contains(handle)),
            !(self@.dom().contains(handle) && self.lent().contains(handle)),
            !(self@.dom().contains(handle) && self.gone().contains(handle)),
            !(self.lent().contains(handle) && self.gone().contains(handle)),
    {
    }

    /// A registry that holds no object and has given out no handle.
    pub fn new() -> (registry: Self)
        ensures
            registry@ == Map::<usize, T>::empty(),
            registry.lent() == Set::<usize>::empty(),
            registry.gone() == Set::<usize>::empty(),
            registry.issued() == 0,
    {
        let registry = HandleRegistry { slots: Vec::new() };
        assert(registry@ =~= Map::<usize, T>::empty());
        assert(registry.lent() =~= Set::<usize>::empty());
        assert(registry.gone() =~= Set::<usize>::empty());
        registry
    }

    /// Takes the object into the registry and returns its handle: the number
    /// after the last that was given out. Where the numbers have run out the
    /// object is handed back.
    pub fn create(&mut self, object: T) -> (r: Result<usize, T>)
        ensures
            final(self).lent() == old(self).lent(),
            final(self).gone() == old(self).gone(),
            match r {
                Ok(handle) => {
                    &&& old(self).issued() < usize::MAX
                    &&& handle == old(self).issued() + 1
                    &&& final(self)@ == old(self)@.insert(handle, object)
                    &&& final(self).issued() == old(self).issued() + 1
                },
                Err(returned) => {
                    &&& old(self).issued() >= usize::MAX
                    &&& returned == object
                    &&& final(self)@ == old(self)@
                    &&& final(self).issued() == old(self).issued()
                },
            },
    {
        if self.slots.len() >= usize::MAX {
            return Err(object);
        }
        self.slots.push(Slot::Held(object));
        let handle = self.slots.len();
        assert(self@ =~= old(self)@.insert(handle, object));
        assert(self.lent() =~= old(self).lent());
        assert(self.gone() =~= old(self).gone());
        Ok(handle)
    }

    /// Whether the handle names an object that is held.
    pub fn contains(&self, handle: usize) -> (r: bool)
        ensures
            r == self@.dom().contains(handle),
    {
        if handle == 0 || handle > self.slots.len() {
            return false;
        }
        match &self.slots[handle - 1] {
            Slot::Held(_) => true,
            _ => false,
        }
    }

    /// The object that the handle names, if it names one that is held.
    pub fn get(&self, handle: usize) -> (r: Option<&T>)
        ensures
            match r {
                Some(object) => self@.dom().contains(handle) && *object == self@[handle],
                None => !self@.dom().contains(handle),
            },
    {
        if handle == 0 || handle > self.slots.len() {
            return None;
        }
        match &self.slots[handle - 1] {
            Slot::Held(object) => Some(object),
            _ => None,
        }
    }

    /// Puts `slot` under the handle and returns what stood there.
    fn exchange(&mut self, handle: usize, slot: Slot<T>) -> (before: Slot<T>)
        requires
            1 <= handle <= old(self).slots@.len(),
        ensures
            before == old(self).slots@[handle - 1],
            final(self).slots@ == old(self).slots@.update(handle - 1, slot),
    {
        self.slots.push(slot);
        let before = self.slots.swap_remove(handle - 1);
        assert(self.slots@ =~= old(self).slots@.update(handle - 1, slot));
        before
    }

    /// Takes the object that the handle names out of the registry, for the
    /// length of one call on it; `restore` puts it back under the same
    /// handle. `None` where the handle names no object that is held.
    pub fn take(&mut self, handle: usize) -> (r: Option<T>)
        ensures
            final(self).issued() == old(self).issued(),
            final(self).gone() == old(self).gone(),
            match r {
                Some(object) => {
                    &&& old(self)@.dom().contains(handle)
                    &&& object == old(self)@[handle]
                    &&& final(self)@ == old(self)@.remove(handle)
                    &&& final(self).lent() == old(self).lent().insert(handle)
                },
                None => {
                    &&& !old(self)@.dom().contains(handle)
                    &&& final(self)@ == old(self)@
                    &&& final(self).lent() == old(self).lent()
                },
            },
    {
        if !self.contains(handle) {
            return None;
        }
        match self.exchange(handle, Slot::Lent) {
            Slot::Held(object) => {
                assert(self@ =~= old(self)@.remove(handle));
                assert(self.lent() =~= old(self).lent().insert(handle));
                assert(self.gone() =~= old(self).gone());
                Some(object)
            },
            _ => {
                proof {
                    assert(false);
                }
                None
            },
        }
    }

    /// Puts an object back under the handle that it was taken from. Where
    /// no object is out under the handle, the object is handed back and
    /// nothing changes.
    pub fn restore(&mut self, handle: usize, object: T) -> (r: Result<(), T>)
        ensures
            final(self).issued() == old(self).issued(),
            final(self).gone() == old(self).gone(),
            match r {
                Ok(_) => {
                    &&& old(self).lent().contains(handle)
                    &&& final(self)@ == old(self)@.insert(handle, object)
                    &&& final(self).lent() == old(self).lent().remove(handle)
                },
                Err(returned) => {
                    &&& !old(self).lent().contains(handle)
                    &&& returned == object
                    &&& final(self)@ == old(self)@
                    &&& final(self).lent() == old(self).lent()
                },
            },
    {
        if handle == 0 || handle > self.slots.len() {
            return Err(object);
        }
        match &self.slots[handle - 1] {
            Slot::Lent => {},
            _ => {
                return Err(object);
            },
        }
        let _ = self.exchange(handle, Slot::Held(object));
        assert(self@ =~= old(self)@.insert(handle, object));
        assert(self.lent() =~= old(self).lent().remove(handle));
        assert(self.gone() =~= old(self).gone());
        Ok(())
    }

    /// Destroys the object that the handle names: it is taken out of the
    /// registry for good and returned, so that it can be wound down. The
    /// handle names nothing from then on. `None` where the handle names no
    /// object that is held.
    pub fn destroy(&mut self, handle: usize) -> (r: Option<T>)
        ensures
            final(self).issued() == old(self).issued(),
            final(self).lent() == old(self).lent(),
            match r {
                Some(object) => {
                    &&& old(self)@.dom().contains(handle)
                    &&& object == old(self)@[handle]
                    &&& final(self)@ == old(self)@.remove(handle)
                    &&& final(self).gone() == old(self).gone().insert(handle)
                },
                None => {
                    &&& !old(self)@.dom().contains(handle)
                    &&& final(self)@ == old(self)@
                    &&& final(self).gone() == old(self).gone()
                },
            },
    {
        if !self.contains(handle) {
            return None;
        }
        match self.exchange(handle, Slot::Gone) {
            Slot::Held(object) => {
                assert(self@ =~= old(self)@.remove(handle));
                assert(self.lent() =~= old(self).lent());
                assert(self.gone() =~= old(self).gone().insert(handle));
                Some(object)
            },
            _ => {
                proof {
                    assert(false);
                }
                None
            },
        }
    }
}

/// A handle that was destroyed names nothing from then on: no operation
/// takes a handle out of those that are gone, none puts an object under
/// one, and the handle of an object that is created is none that was given
/// out before.
pub proof fn lemma_destroyed_handles_stay_dead<T>(registry: HandleRegistry<T>, handle: usize)
    requires
        registry.gone().contains(handle),
    ensures
        !registry@.dom().contains(handle),
        !registry.lent().contains(handle),
        handle != registry.issued() + 1,
{
    registry.lemma_handle_states(handle);
}

} // verus!
