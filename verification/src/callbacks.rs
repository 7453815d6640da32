//! The Rust closures that the host may call back, in the order they were
//! registered; a callback is known to the host by its position.
use vstd::prelude::*;
use crate::cell::SyncUnsafeCell;

verus! {

pub struct CallbackRegistry<F> {
    callbacks: SyncUnsafeCell<Vec<F>>,
}

impl<F> View for CallbackRegistry<F> {
    type V = Seq<F>;

    closed spec fn view(&self) -> Seq<F> {
        self.callbacks@@
    }
}

impl<F> CallbackRegistry<F> {
    /// No callback yet.
    pub fn new() -> (r: CallbackRegistry<F>)
        ensures
            r@ == Seq::<F>::empty(),
    {
        CallbackRegistry { callbacks: SyncUnsafeCell::new(Vec::new()) }
    }

    /// Adds a callback; the host knows it by the position returned, the
    /// number of callbacks registered before it.
    pub fn register(&mut self, f: F) -> (index: usize)
        ensures
            index == old(self)@.len(),
            final(self)@ == old(self)@.push(f),
            final(self)@[index as int] == f,
    {
        let callbacks = self.callbacks.get_mut();
        callbacks.push(f);
        callbacks.len() - 1
    }

    /// How many callbacks are registered.
    pub fn len(&self) -> (n: usize)
        ensures
            n == self@.len(),
    {
        self.callbacks.get().len()
    }

    /// The callback at a position, to be called.
    pub fn get_mut(&mut self, index: usize) -> (f: &mut F)
        requires
            index < old(self)@.len(),
        ensures
            *f == old(self)@[index as int],
            final(self)@ == old(self)@.update(index as int, *final(f)),
    {
        let callbacks = self.callbacks.get_mut();
        &mut callbacks[index]
    }
}

} // verus!
