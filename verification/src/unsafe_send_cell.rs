//! The unchecked transfer leaf.
//!
//! [`UnsafeSendCell`] is a bare single-field holder that stands for the
//! claim "this value may be moved to another thread". The holder itself
//! establishes no proof of that claim: every operation is exact about
//! the value it moves, and the cross-thread obligation stays with the
//! caller.

use vstd::prelude::*;

use crate::sys::type_has_teardown;

verus! {

/// Holder for a value whose transfer to another thread is asserted by
/// the caller, with no runtime verification.
pub struct UnsafeSendCell<T>(T);

impl<T> UnsafeSendCell<T> {
    /// The wrapped value.
    pub closed spec fn value(self) -> T {
        self.0
    }

    /// Wraps a value without any restriction. The caller carries the
    /// obligation that moving, accessing and dropping the value on
    /// another thread is safe.
    pub fn new_unchecked(value: T) -> (r: Self)
        ensures
            r.value() == value,
    {
        UnsafeSendCell(value)
    }

    /// Wraps a value only when the caller already knows whether the
    /// value's type has teardown code to run: a type without teardown
    /// cannot have thread-sensitive finalization, which is the one
    /// hazard this constructor screens out.
    pub fn new_if_no_teardown(value: T, has_teardown: bool) -> (r: Option<Self>)
        ensures
            r is Some <==> !has_teardown,
            r matches Some(c) ==> c.value() == value,
    {
        if has_teardown {
            None
        } else {
            Some(UnsafeSendCell(value))
        }
    }

    /// Wraps a value when its type has no teardown code, and refuses it
    /// otherwise. Whether the type has teardown code is reported by the
    /// platform, so the contract pins only the successful outcome.
    pub fn new(value: T) -> (r: Option<Self>)
        ensures
            r matches Some(c) ==> c.value() == value,
    {
        let has_teardown = type_has_teardown::<T>();
        Self::new_if_no_teardown(value, has_teardown)
    }

    /// Borrows the wrapped value. No thread check happens here; the
    /// caller asserts that reading from the current thread is safe.
    pub fn get(&self) -> (r: &T)
        ensures
            *r == self.value(),
    {
        &self.0
    }

    /// Mutably borrows the wrapped value, again on the caller's
    /// assertion that the current thread may touch it.
    pub fn get_mut(&mut self) -> (r: &mut T)
        ensures
            *r == old(self).value(),
            final(self).value() == *final(r),
    {
        &mut self.0
    }

    /// Consumes the cell and returns the wrapped value.
    pub fn into_inner(self) -> (r: T)
        ensures
            r == self.value(),
    {
        self.0
    }

    /// Moves the wrapped value into a future holder carrying the same
    /// unchecked transfer claim.
    pub fn into_future(self) -> (r: UnsafeSendFuture<T>)
        ensures
            r.value() == self.value(),
    {
        UnsafeSendFuture(self.0)
    }
}

/// Holder that carries the unchecked transfer claim onto a suspendable
/// computation. Resumption delegates to the wrapped computation without
/// any check, so driving it is host plumbing, reached through
/// [`UnsafeSendFuture::into_inner`].
pub struct UnsafeSendFuture<T>(T);

impl<T> UnsafeSendFuture<T> {
    /// The wrapped computation.
    pub closed spec fn value(self) -> T {
        self.0
    }

    /// Mutably borrows the wrapped computation, on the caller's
    /// assertion that driving it from the current thread is safe.
    pub fn get_mut(&mut self) -> (r: &mut T)
        ensures
            *r == old(self).value(),
            final(self).value() == *final(r),
    {
        &mut self.0
    }

    /// Releases the wrapped computation to whoever drives it.
    pub fn into_inner(self) -> (r: T)
        ensures
            r == self.value(),
    {
        self.0
    }
}

} // verus!
