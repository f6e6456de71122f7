//! A busy-wait mutual-exclusion primitive guarding a single payload.
//!
//! The lock is non-reentrant and unsuitable for long critical sections: a
//! waiter burns CPU instead of yielding to a scheduler, so a thread that tries
//! to re-acquire a lock it already holds spins forever. The contracts here make
//! that discipline explicit: `lock` demands a free lock and `unlock` a held
//! one, so verified callers can neither self-deadlock nor release a lock they
//! never took.

use vstd::prelude::*;

verus! {

/// The bare exclusion flag, without a payload.
pub struct SpinLockInner {
    locked: bool,
}

impl SpinLockInner {
    /// Whether the flag is currently held.
    pub closed spec fn spec_locked(self) -> bool {
        self.locked
    }

    /// A fresh, free flag.
    pub fn new() -> (r: Self)
        ensures
            !r.spec_locked(),
    {
        SpinLockInner { locked: false }
    }
}

/// A spin lock guarding exactly one value of type `T`.
///
/// The payload may be read or written only between a `lock` and the matching
/// `unlock`.
pub struct SpinLock<T> {
    lock: SpinLockInner,
    data: T,
}

impl<T> SpinLock<T> {
    /// Whether the critical section is currently held.
    pub closed spec fn spec_locked(self) -> bool {
        self.lock.spec_locked()
    }

    /// The guarded payload.
    pub closed spec fn spec_data(self) -> T {
        self.data
    }

    /// Creates a free lock guarding `data`.
    pub fn new(data: T) -> (r: Self)
        ensures
            !r.spec_locked(),
            r.spec_data() == data,
    {
        SpinLock { lock: SpinLockInner::new(), data }
    }

    /// Acquires exclusivity. The caller must not already hold the lock:
    /// re-acquiring a held lock would spin without end.
    pub fn lock(&mut self)
        requires
            !old(self).spec_locked(),
        ensures
            final(self).spec_locked(),
            final(self).spec_data() == old(self).spec_data(),
    {
        self.lock.locked = true;
    }

    /// Releases exclusivity, making the holder's writes visible to the next
    /// acquirer. Unlocking without a matching `lock` is a contract violation,
    /// so a held lock is demanded here.
    pub fn unlock(&mut self)
        requires
            old(self).spec_locked(),
        ensures
            !final(self).spec_locked(),
            final(self).spec_data() == old(self).spec_data(),
    {
        self.lock.locked = false;
    }

    /// Reads the payload. The lock must be held: only the holder of the
    /// critical section may see the guarded value.
    pub fn read(&self) -> (r: &T)
        requires
            self.spec_locked(),
        ensures
            *r == self.spec_data(),
    {
        &self.data
    }

    /// Overwrites the payload. The lock must be held: only the holder of the
    /// critical section may change the guarded value.
    pub fn write(&mut self, value: T)
        requires
            old(self).spec_locked(),
        ensures
            final(self).spec_locked(),
            final(self).spec_data() == value,
    {
        self.data = value;
    }

    /// Swaps the payload for `replacement` under the lock's protection and
    /// returns the previous payload, as one atomic hand-off.
    pub fn replace(&mut self, replacement: T) -> (r: T)
        requires
            !old(self).spec_locked(),
        ensures
            !final(self).spec_locked(),
            r == old(self).spec_data(),
            final(self).spec_data() == replacement,
    {
        self.lock();
        let mut swapped = replacement;
        core::mem::swap(&mut self.data, &mut swapped);
        self.unlock();
        swapped
    }

    /// Swaps the payload for its default value under the lock's protection and
    /// returns the previous payload, leaving no stale value behind.
    pub fn take(&mut self) -> (r: T) where T: Default
        requires
            !old(self).spec_locked(),
        ensures
            !final(self).spec_locked(),
            r == old(self).spec_data(),
            call_ensures(T::default, (), final(self).spec_data()),
    {
        self.replace(T::default())
    }
}

} // verus!
