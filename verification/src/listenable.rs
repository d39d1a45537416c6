//! The observable cell: a value plus the set of handles of its current
//! subscribers.
//!
//! Replacing the value always counts as a publish, even when the new value
//! equals the old one; whoever drives the engine fans the published value
//! out to the callbacks it registered under the returned handles. The cell
//! itself only tracks the value and who is subscribed — the subscriber
//! count is what drives the eviction controller.

use vstd::prelude::*;

use crate::handle_map::{Handle, HandleMap};

verus! {

/// A value container that tracks its subscribers by handle.
pub struct Listenable<T> {
    value: T,
    listeners: HandleMap<()>,
}

impl<T> Listenable<T> {
    /// The current value.
    pub closed spec fn spec_value(self) -> T {
        self.value
    }

    /// Whether `h` is a current subscriber handle.
    pub closed spec fn has_listener(self, h: Handle) -> bool {
        self.listeners.contains(h)
    }

    /// The number of current subscribers.
    pub closed spec fn listener_count(self) -> nat {
        self.listeners.spec_len()
    }

    /// The next listener handle number to be issued.
    pub closed spec fn spec_next_handle(self) -> u64 {
        self.listeners.spec_next()
    }

    /// The cell's invariant.
    pub closed spec fn wf(self) -> bool {
        self.listeners.wf()
    }

    /// `a` and `b` have the same subscribers.
    pub open spec fn same_listeners(a: Self, b: Self) -> bool {
        &&& a.listener_count() == b.listener_count()
        &&& a.spec_next_handle() == b.spec_next_handle()
        &&& forall|h: Handle| #[trigger] a.has_listener(h) == b.has_listener(h)
    }

    /// A new cell holding `value`, with no subscribers.
    pub fn new(value: T) -> (r: Self)
        ensures
            r.wf(),
            r.spec_value() == value,
            r.listener_count() == 0,
            r.spec_next_handle() == 0,
            forall|h: Handle| !(#[trigger] r.has_listener(h)),
    {
        Listenable { value, listeners: HandleMap::new() }
    }

    /// Registers a subscriber and returns its handle.
    pub fn add_listener(&mut self) -> (r: Handle)
        requires
            old(self).wf(),
            old(self).spec_next_handle() < u64::MAX,
        ensures
            final (self).wf(),
            !old(self).has_listener(r),
            final (self).has_listener(r),
            final (self).spec_value() == old(self).spec_value(),
            final (self).listener_count() == old(self).listener_count() + 1,
            forall|h: Handle|
                h != r ==> #[trigger] final (self).has_listener(h) == old(self).has_listener(h),
    {
        self.listeners.insert(())
    }

    /// Removes the subscriber under `h`, if any, and returns how many
    /// subscribers remain.
    pub fn remove_listener(&mut self, h: Handle) -> (r: usize)
        requires
            old(self).wf(),
        ensures
            final (self).wf(),
            !final (self).has_listener(h),
            final (self).spec_value() == old(self).spec_value(),
            r == final (self).listener_count(),
            final (self).listener_count() == if old(self).has_listener(h) {
                old(self).listener_count() - 1
            } else {
                old(self).listener_count() as int
            },
            forall|h2: Handle|
                h2 != h ==> #[trigger] final (self).has_listener(h2) == old(self).has_listener(h2),
    {
        let _ = self.listeners.remove(h);
        self.listeners.len()
    }

    /// How many subscribers the cell has.
    pub fn count(&self) -> (r: usize)
        ensures
            r == self.listener_count(),
    {
        self.listeners.len()
    }

    /// The next listener handle number to be issued.
    pub fn next_handle_id(&self) -> (r: u64)
        ensures
            r == self.spec_next_handle(),
    {
        self.listeners.next_handle_id()
    }

    /// Replaces the value, returning the old one. Every replacement is a
    /// publish: the caller fans the new value out to all subscribers.
    pub fn set(&mut self, value: T) -> (r: T)
        ensures
            final (self).spec_value() == value,
            r == old(self).spec_value(),
            final (self).wf() == old(self).wf(),
            Self::same_listeners(*final (self), *old(self)),
    {
        let mut v = value;
        core::mem::swap(&mut self.value, &mut v);
        v
    }

    /// The current value.
    pub fn peek(&self) -> (r: &T)
        ensures
            *r == self.spec_value(),
    {
        &self.value
    }

    /// Consumes the cell and hands back its value; all subscriptions end.
    pub fn unwrap(self) -> (r: T)
        ensures
            r == self.spec_value(),
    {
        self.value
    }
}

} // verus!
