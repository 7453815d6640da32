use vstd::prelude::*;

verus! {

/// A cell that owns one value of the runtime's shared state (an intern
/// table, the callback list) and hands out shared or exclusive access to it.
pub struct SyncUnsafeCell<T> {
    inner: T,
}

impl<T> View for SyncUnsafeCell<T> {
    type V = T;

    closed spec fn view(&self) -> T {
        self.inner
    }
}

impl<T> SyncUnsafeCell<T> {
    /// Wraps `inner`.
    pub fn new(inner: T) -> (cell: Self)
        ensures
            cell@ == inner,
    {
        SyncUnsafeCell { inner }
    }

    /// Shared access to the held value.
    pub fn get(&self) -> (r: &T)
        ensures
            *r == self@,
    {
        &self.inner
    }

    /// Exclusive access to the held value: what is written through the
    /// returned reference is what the cell holds afterwards.
    pub fn get_mut(&mut self) -> (r: &mut T)
        ensures
            *r == old(self)@,
            final(self)@ == *final(r),
    {
        &mut self.inner
    }

    /// Gives the held value back.
    pub fn into_inner(self) -> (r: T)
        ensures
            r == self@,
    {
        self.inner
    }
}

} // verus!
