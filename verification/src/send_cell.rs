//! The runtime-checked transfer wrapper.
//!
//! [`SendCell`] records the identity of the thread that created it and
//! re-validates that identity on every checked access. A checked access
//! from any other thread is refused with [`ThreadAffinityError`] instead
//! of touching the value, which turns what would otherwise be a silent
//! cross-thread hazard into a deterministic, observable failure.
//!
//! Each checked operation comes in two layers. The `*_from` form takes
//! the identity of the accessing thread as an argument and is exact: it
//! succeeds if and only if that identity equals the recorded one. The
//! plain form asks the platform for the calling thread's identity and
//! feeds it to the `*_from` form, so its outcome depends on which thread
//! runs it.

use vstd::prelude::*;

use crate::sys::current_thread_id;
use crate::unsafe_send_cell::UnsafeSendCell;
use crate::unsafe_send_cell::UnsafeSendFuture;
use wasm_thread::ThreadId;

verus! {

/// A checked access was attempted from a thread other than the one the
/// cell records.
#[derive(Clone, Copy, Debug, PartialEq, Eq)]
pub struct ThreadAffinityError;

/// Wrapper that binds a value to the thread that created it and checks
/// that binding on every checked access.
pub struct SendCell<T> {
    inner: UnsafeSendCell<T>,
    thread_id: ThreadId,
}

impl<T> SendCell<T> {
    /// The wrapped value.
    pub closed spec fn value(self) -> T {
        self.inner.value()
    }

    /// The identity recorded when the cell was created.
    pub closed spec fn owner(self) -> ThreadId {
        self.thread_id
    }

    /// Whether a checked access from the thread with identity `caller`
    /// is admitted: only the recorded identity and the accessing
    /// identity matter.
    pub open spec fn accessible_from(self, caller: ThreadId) -> bool {
        caller == self.owner()
    }

    /// Creates a cell bound to the calling thread: the platform's
    /// identity for that thread is recorded and later checked against.
    pub fn new(t: T) -> (r: SendCell<T>)
        ensures
            r.value() == t,
    {
        let thread_id = current_thread_id();
        SendCell { inner: UnsafeSendCell::new_unchecked(t), thread_id }
    }

    /// Decides whether a checked access from `caller` would be admitted.
    pub fn is_accessible_from(&self, caller: ThreadId) -> (r: bool)
        ensures
            r == self.accessible_from(caller),
    {
        caller == self.thread_id
    }

    /// The recorded identity itself.
    pub fn owner_id(&self) -> (r: ThreadId)
        ensures
            r == self.owner(),
    {
        self.thread_id
    }

    /// Borrows the value without any thread check; the caller asserts
    /// that reading from the current thread is safe.
    pub fn get_unchecked(&self) -> (r: &T)
        ensures
            *r == self.value(),
    {
        self.inner.get()
    }

    /// Mutably borrows the value without any thread check.
    pub fn get_unchecked_mut(&mut self) -> (r: &mut T)
        ensures
            *r == old(self).value(),
            final(self).value() == *final(r),
            final(self).owner() == old(self).owner(),
    {
        self.inner.get_mut()
    }

    /// Consumes the cell without any thread check and returns the value.
    pub fn into_unchecked_inner(self) -> (r: T)
        ensures
            r == self.value(),
    {
        self.inner.into_inner()
    }

    /// Borrows the value, admitting exactly the thread whose identity
    /// equals the recorded one.
    pub fn get_from(&self, caller: ThreadId) -> (r: Result<&T, ThreadAffinityError>)
        ensures
            self.accessible_from(caller) ==> r.is_ok() && *r->Ok_0 == self.value(),
            !self.accessible_from(caller) ==> r.is_err(),
    {
        if caller == self.thread_id {
            Ok(self.inner.get())
        } else {
            Err(ThreadAffinityError)
        }
    }

    /// Borrows the value after validating that the calling thread is
    /// the recorded one; refused with an error from any other thread.
    pub fn get(&self) -> (r: Result<&T, ThreadAffinityError>)
        ensures
            r.is_ok() ==> *r->Ok_0 == self.value(),
    {
        let caller = current_thread_id();
        self.get_from(caller)
    }

    /// Mutably borrows the value, admitting exactly the thread whose
    /// identity equals the recorded one.
    pub fn get_mut_from(&mut self, caller: ThreadId) -> (r: Result<
        &mut T,
        ThreadAffinityError,
    >)
        ensures
            old(self).accessible_from(caller) ==> r.is_ok() && *r->Ok_0 == old(self).value()
                && final(self).value() == *final(r->Ok_0),
            !old(self).accessible_from(caller) ==> r.is_err() && final(self).value() == old(self).value(),
            final(self).owner() == old(self).owner(),
    {
        if caller == self.thread_id {
            Ok(self.inner.get_mut())
        } else {
            Err(ThreadAffinityError)
        }
    }

    /// Mutably borrows the value after validating the calling thread.
    pub fn get_mut(&mut self) -> (r: Result<&mut T, ThreadAffinityError>)
        ensures
            r.is_ok() ==> *r->Ok_0 == old(self).value() && final(self).value() == *final(r->Ok_0),
            r.is_err() ==> final(self).value() == old(self).value(),
            final(self).owner() == old(self).owner(),
    {
        let caller = current_thread_id();
        self.get_mut_from(caller)
    }

    /// Consumes the cell and returns the value, admitting exactly the
    /// thread whose identity equals the recorded one; from any other
    /// thread the cell comes back unchanged.
    pub fn into_inner_from(self, caller: ThreadId) -> (r: Result<T, SendCell<T>>)
        ensures
            self.accessible_from(caller) ==> r.is_ok() && r->Ok_0 == self.value(),
            !self.accessible_from(caller) ==> r.is_err() && r->Err_0 == self,
    {
        if caller == self.thread_id {
            Ok(self.inner.into_inner())
        } else {
            Err(self)
        }
    }

    /// Consumes the cell after validating the calling thread; from any
    /// other thread the cell comes back unchanged.
    pub fn into_inner(self) -> (r: Result<T, SendCell<T>>)
        ensures
            r.is_ok() ==> r->Ok_0 == self.value(),
            r.is_err() ==> r->Err_0 == self,
    {
        let caller = current_thread_id();
        self.into_inner_from(caller)
    }

    /// Creates a sibling cell that carries a new value but the same
    /// recorded identity, without consulting the thread that calls
    /// this. The caller asserts that the new value is as safe to use on
    /// the recorded thread as the original value was.
    pub fn preserving_cell_thread<U>(&self, new: U) -> (r: SendCell<U>)
        ensures
            r.value() == new,
            r.owner() == self.owner(),
    {
        SendCell { inner: UnsafeSendCell::new_unchecked(new), thread_id: self.thread_id }
    }

    /// Duplicates the cell for a trivially-copyable value: the copy
    /// inherits the recorded identity, and trivial duplication cannot
    /// add teardown obligations.
    pub fn copying(&self) -> (r: Self) where T: Copy
        ensures
            r.value() == self.value(),
            r.owner() == self.owner(),
    {
        self.preserving_cell_thread(*self.get_unchecked())
    }

    /// Moves the value and the recorded identity into a future wrapper
    /// that re-validates the identity on every resumption instead of on
    /// every field access.
    pub fn into_future(self) -> (r: SendFuture<T>)
        ensures
            r.value() == self.value(),
            r.owner() == self.owner(),
    {
        let SendCell { inner, thread_id } = self;
        SendFuture { inner: inner.into_future(), thread_id }
    }
}

/// A suspendable computation bound to the thread recorded by the
/// [`SendCell`] it came from. Each resumption must pass through
/// [`SendFuture::resume_gate_from`], which admits exactly the recorded
/// thread; the actual driving of the computation is host plumbing.
pub struct SendFuture<T> {
    inner: UnsafeSendFuture<T>,
    thread_id: ThreadId,
}

impl<T> SendFuture<T> {
    /// The wrapped computation.
    pub closed spec fn value(self) -> T {
        self.inner.value()
    }

    /// The identity recorded when the originating cell was created.
    pub closed spec fn owner(self) -> ThreadId {
        self.thread_id
    }

    /// Whether a resumption from the thread with identity `caller` is
    /// admitted.
    pub open spec fn resumable_from(self, caller: ThreadId) -> bool {
        caller == self.owner()
    }

    /// The recorded identity itself.
    pub fn owner_id(&self) -> (r: ThreadId)
        ensures
            r == self.owner(),
    {
        self.thread_id
    }

    /// Grants access to the computation for one resumption, admitting
    /// exactly the thread whose identity equals the recorded one.
    pub fn resume_gate_from(&mut self, caller: ThreadId) -> (r: Result<
        &mut T,
        ThreadAffinityError,
    >)
        ensures
            old(self).resumable_from(caller) ==> r.is_ok() && *r->Ok_0 == old(self).value()
                && final(self).value() == *final(r->Ok_0),
            !old(self).resumable_from(caller) ==> r.is_err() && final(self).value() == old(self).value(),
            final(self).owner() == old(self).owner(),
    {
        if caller == self.thread_id {
            Ok(self.inner_mut())
        } else {
            Err(ThreadAffinityError)
        }
    }

    /// Grants access to the computation for one resumption after
    /// validating the calling thread.
    pub fn resume_gate(&mut self) -> (r: Result<&mut T, ThreadAffinityError>)
        ensures
            r.is_ok() ==> *r->Ok_0 == old(self).value() && final(self).value() == *final(r->Ok_0),
            r.is_err() ==> final(self).value() == old(self).value(),
            final(self).owner() == old(self).owner(),
    {
        let caller = current_thread_id();
        self.resume_gate_from(caller)
    }

    /// Releases the wrapped computation without any thread check.
    pub fn into_unchecked_inner(self) -> (r: T)
        ensures
            r == self.value(),
    {
        self.inner.into_inner()
    }

    fn inner_mut(&mut self) -> (r: &mut T)
        ensures
            *r == old(self).value(),
            final(self).value() == *final(r),
            final(self).owner() == old(self).owner(),
    {
        self.inner.get_mut()
    }
}

/// Only the recorded identity and the accessing identity decide a
/// checked access: two cells that record the same identity admit
/// exactly the same threads, whatever values they hold and whichever
/// thread created the second from the first.
pub proof fn lemma_same_owner_same_access<T, U>(c: SendCell<T>, d: SendCell<U>, caller: ThreadId)
    requires
        d.owner() == c.owner(),
    ensures
        d.accessible_from(caller) <==> c.accessible_from(caller),
{
}

/// A checked access is admitted from the recorded thread and refused
/// from every other thread: identity equality alone decides.
pub proof fn lemma_access_gate<T>(c: SendCell<T>, caller: ThreadId)
    ensures
        c.accessible_from(caller) <==> caller == c.owner(),
{
}

} // verus!
