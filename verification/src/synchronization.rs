//! Mutual exclusion for a single hardware thread of execution.

use vstd::prelude::*;

verus! {

/// A minimal mutual-exclusion wrapper, suitable while only one hardware
/// thread of execution exists and preemption is not yet enabled.
///
/// No real blocking ever occurs. The primitive exists to document the
/// exclusivity requirement — so that it can later be swapped for a real mutex
/// or a disabled-interrupts critical section once interrupts or further cores
/// are enabled — and to keep the protected state from being reached other
/// than through its methods. Locking again from within the closure handed to
/// [`NullLock::lock`] is a logic error and is forbidden.
pub struct NullLock<T> {
    /// The protected state. `None` only transiently, while [`NullLock::lock`]
    /// has handed the state to its closure.
    data: Option<T>,
}

impl<T> NullLock<T> {
    /// The lock is at rest: it holds the protected state.
    pub closed spec fn inv(&self) -> bool {
        self.data is Some
    }

    /// The protected state.
    pub closed spec fn state(&self) -> T {
        self.data->Some_0
    }

    /// Wrap `data` in a new lock.
    pub fn new(data: T) -> (r: Self)
        ensures
            r.inv(),
            r.state() == data,
    {
        NullLock { data: Some(data) }
    }

    /// Grant `f` exclusive, closure-scoped access to the protected state.
    ///
    /// The closure receives the state and hands back the successor state
    /// together with its result, which `lock` returns.
    pub fn lock<R, F: FnOnce(T) -> (T, R)>(&mut self, f: F) -> (r: R)
        requires
            old(self).inv(),
            call_requires(f, (old(self).state(),)),
        ensures
            final(self).inv(),
            call_ensures(f, (old(self).state(),), (final(self).state(), r)),
    {
        let data = self.data.take().unwrap();
        let (data, r) = f(data);
        self.data = Some(data);
        r
    }

    /// Read the protected state.
    ///
    /// With a single thread of execution no writer can hold the lock while
    /// the returned borrow lives, so a shared borrow is exclusive enough for
    /// a read.
    pub fn lock_shared(&self) -> (r: &T)
        requires
            self.inv(),
        ensures
            *r == self.state(),
    {
        self.data.as_ref().unwrap()
    }

    /// Take the lock for the duration of the returned borrow: exclusive
    /// access that ends when the borrow ends.
    pub fn lock_exclusive(&mut self) -> (r: &mut T)
        requires
            old(self).inv(),
        ensures
            *r == old(self).state(),
            final(self).inv(),
            final(self).state() == *final(r),
    {
        match &mut self.data {
            Some(t) => t,
            None => vstd::pervasive::unreached(),
        }
    }
}

} // verus!
