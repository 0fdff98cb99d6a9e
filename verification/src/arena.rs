//! Scope-tracked arena allocation.
//!
//! The host owns region-based arenas whose allocations are freed en masse
//! when the owning scope (a configuration phase or a request) ends. This
//! model tracks that scope explicitly: an [`Arena`] hands out handles to
//! values allocated inside it, and once the scope ends every handle is
//! invalid — a dereference after that point observably yields nothing
//! instead of dangling.

use vstd::prelude::*;

verus! {

/// An arena of values of one type, valid while its owning scope is active.
///
/// Allocation returns a handle (the allocation's slot); dereferencing a
/// handle succeeds exactly while the scope is active and the handle was
/// returned by this arena. Ending the scope frees every allocation at once.
pub struct Arena<T> {
    items: Vec<T>,
    active: bool,
}

impl<T> View for Arena<T> {
    type V = Seq<T>;

    closed spec fn view(&self) -> Seq<T> {
        self.items@
    }
}

impl<T> Arena<T> {
    /// Whether the owning scope is still active.
    pub closed spec fn is_active(self) -> bool {
        self.active
    }

    /// A fresh arena for a scope that is beginning.
    pub fn new() -> (a: Arena<T>)
        ensures
            a.is_active(),
            a@ == Seq::<T>::empty(),
    {
        Arena { items: Vec::new(), active: true }
    }

    /// Allocate a value inside the arena; the returned handle stays valid
    /// exactly as long as the arena's scope is.
    ///
    /// Must be called only while the originating scope is still active.
    /// Exhaustion of the host arena is fatal, not a recoverable error, so
    /// no failure is reported here.
    pub fn allocate(&mut self, value: T) -> (h: usize)
        requires
            old(self).is_active(),
        ensures
            final(self).is_active(),
            final(self)@ == old(self)@.push(value),
            h == old(self)@.len(),
    {
        let h = self.items.len();
        self.items.push(value);
        h
    }

    /// The number of allocations made so far.
    pub fn len(&self) -> (n: usize)
        ensures
            n == self@.len(),
    {
        self.items.len()
    }

    /// Dereference a handle: the allocated value, exactly while the scope
    /// is active and the handle is one this arena returned; nothing once
    /// the scope has ended.
    pub fn get(&self, h: usize) -> (r: Option<&T>)
        ensures
            match r {
                Some(v) => self.is_active() && h < self@.len() && *v == self@[h as int],
                None => !self.is_active() || h >= self@.len(),
            },
    {
        if self.active && h < self.items.len() {
            Some(vstd::std_specs::vec::vec_index(&self.items, h))
        } else {
            None
        }
    }

    /// Replace the value behind a handle, during the scope that made it.
    pub fn update(&mut self, h: usize, value: T)
        requires
            old(self).is_active(),
            h < old(self)@.len(),
        ensures
            final(self).is_active(),
            final(self)@ == old(self)@.update(h as int, value),
    {
        let slot = vstd::std_specs::vec::vec_index_mut(&mut self.items, h);
        *slot = value;
    }

    /// End the owning scope: every allocation is freed at once and every
    /// handle this arena ever returned is invalid from here on.
    pub fn end_scope(&mut self)
        ensures
            !final(self).is_active(),
            final(self)@ == Seq::<T>::empty(),
    {
        self.active = false;
        self.items.clear();
    }
}

} // verus!
