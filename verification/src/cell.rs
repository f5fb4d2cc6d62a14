//! The observable state cell: one widget's state, mutated only through a
//! callback that also raises a redraw notification, and silently inert
//! once the owning widget has been destroyed. Drivers hold only a
//! non-owning reference to the widget, so a mutation attempted after
//! teardown must be dropped, not fail.

use vstd::prelude::*;

verus! {

/// Holder of one widget's state. `dirty` is the pending redraw
/// notification; `alive` mirrors whether the owning widget still exists.
pub struct ObservableCell<T> {
    pub value: T,
    pub alive: bool,
    pub dirty: bool,
}

impl<T> ObservableCell<T> {
    /// A cell for a live widget, clean and holding its initial state.
    pub fn new(value: T) -> (r: ObservableCell<T>)
        ensures
            r.value == value,
            r.alive,
            !r.dirty,
    {
        ObservableCell { value, alive: true, dirty: false }
    }

    /// Apply a mutator and raise the redraw notification, or do nothing
    /// at all if the widget is gone. Every applied write is observable:
    /// the cell is marked dirty even if the mutator returned an equal
    /// value.
    pub fn update<F: FnOnce(&T) -> T>(&mut self, f: F)
        requires
            old(self).alive ==> call_requires(f, (&old(self).value,)),
        ensures
            old(self).alive ==> {
                &&& call_ensures(f, (&old(self).value,), final(self).value)
                &&& final(self).alive
                &&& final(self).dirty
            },
            !old(self).alive ==> *final(self) == *old(self),
    {
        if self.alive {
            let next = f(&self.value);
            self.value = next;
            self.dirty = true;
        }
    }

    /// The owning widget was destroyed: later updates are dropped.
    pub fn destroy(&mut self)
        ensures
            !final(self).alive,
            final(self).value == old(self).value,
            final(self).dirty == old(self).dirty,
    {
        self.alive = false;
    }

    /// The renderer consumes the pending notification and reads the
    /// snapshot; returns whether a redraw was owed.
    pub fn take_dirty(&mut self) -> (was_dirty: bool)
        ensures
            was_dirty == old(self).dirty,
            !final(self).dirty,
            final(self).value == old(self).value,
            final(self).alive == old(self).alive,
    {
        let d = self.dirty;
        self.dirty = false;
        d
    }
}

} // verus!
