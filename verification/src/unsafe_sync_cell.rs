//! The unchecked sharing leaf.
//!
//! [`UnsafeSyncCell`] is a bare single-field holder that stands for the
//! claim "this value may be read and written from other threads". The
//! holder establishes no proof: it only moves and borrows the value,
//! and leaves the no-data-race obligation with the caller.

use vstd::prelude::*;

verus! {

/// Holder for a value whose concurrent use is asserted by the caller,
/// with no runtime verification.
#[derive(Debug, Clone, PartialEq, Eq, PartialOrd, Ord, Hash)]
pub struct UnsafeSyncCell<T>(T);

impl<T> UnsafeSyncCell<T> {
    /// The wrapped value.
    pub closed spec fn value(self) -> T {
        self.0
    }

    /// The holder around a given value, as a spec value.
    pub closed spec fn spec_wrap(value: T) -> UnsafeSyncCell<T> {
        UnsafeSyncCell(value)
    }

    /// Wraps a value. Always succeeds and proves nothing.
    pub fn new(value: T) -> (r: Self)
        ensures
            r == UnsafeSyncCell::spec_wrap(value),
            r.value() == value,
    {
        UnsafeSyncCell(value)
    }

    /// Borrows the wrapped value. The caller asserts that no other
    /// thread is writing it at the same time.
    pub fn get(&self) -> (r: &T)
        ensures
            *r == self.value(),
    {
        &self.0
    }

    /// Mutably borrows the wrapped value through the exclusive
    /// reference the borrow checker already guarantees.
    pub fn get_mut(&mut self) -> (r: &mut T)
        ensures
            *r == old(self).value(),
            final(self).value() == *final(r),
    {
        &mut self.0
    }

    /// Consumes the cell and returns the wrapped value.
    pub fn into_inner(self) -> (r: T)
        ensures
            r == self.value(),
    {
        self.0
    }
}

} // verus!
