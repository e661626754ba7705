//! The lock-mediated sharing wrapper.
//!
//! [`SyncCell`] protects a value with an exclusion discipline and hands
//! it out only through closure-scoped access: the closure receives the
//! value for the duration of one call and cannot retain it, so no
//! access outlives its scope. Exclusion between simultaneous accesses
//! is structural here — a mutating access needs the one exclusive
//! reference to the cell — while the poisoned state survives in the
//! cell itself: once an access is recorded as having terminated
//! abnormally, every later scoped access is refused.
//!
//! [`LockState`] and [`lock_step`] spell out the lifecycle that an
//! exclusion primitive guarding such a cell follows, so a host that
//! drives the cell with a real lock can be checked against it.

use vstd::prelude::*;

use crate::unsafe_sync_cell::UnsafeSyncCell;

verus! {

/// A scoped access was refused because an earlier access terminated
/// abnormally while it held the cell.
#[derive(Clone, Copy, Debug, PartialEq, Eq)]
pub struct PoisonedError;

/// Wrapper that serializes access to a value and remembers whether an
/// access ever terminated abnormally.
#[derive(Debug, Clone, PartialEq, Eq, PartialOrd, Ord, Hash)]
pub struct SyncCell<T> {
    inner: UnsafeSyncCell<T>,
    poisoned: bool,
}

impl<T> SyncCell<T> {
    /// The protected value.
    pub closed spec fn value(self) -> T {
        self.inner.value()
    }

    /// Whether an access terminated abnormally while it held the cell.
    pub closed spec fn poisoned(self) -> bool {
        self.poisoned
    }

    /// Wraps a value; the cell starts out unpoisoned.
    pub fn new(value: T) -> (r: SyncCell<T>)
        ensures
            r.value() == value,
            !r.poisoned(),
    {
        SyncCell { inner: UnsafeSyncCell::new(value), poisoned: false }
    }

    /// Whether the cell is poisoned.
    pub fn is_poisoned(&self) -> (r: bool)
        ensures
            r == self.poisoned(),
    {
        self.poisoned
    }

    /// Runs `f` on a borrow of the protected value and returns its
    /// result, unless the cell is poisoned, in which case `f` is not
    /// run and the access is refused.
    pub fn with<R, F: FnOnce(&T) -> R>(&self, f: F) -> (r: Result<R, PoisonedError>)
        requires
            call_requires(f, (&self.value(),)),
        ensures
            self.poisoned() ==> r is Err,
            !self.poisoned() ==> (r matches Ok(out) && call_ensures(f, (&self.value(),), out)),
    {
        if self.poisoned {
            Err(PoisonedError)
        } else {
            Ok(f(self.inner.get()))
        }
    }

    /// Runs `f` on a borrow of the protected value, stores the
    /// replacement value `f` returns, and hands its other result back —
    /// unless the cell is poisoned, in which case `f` is not run and
    /// nothing changes.
    pub fn with_mut<R, F: FnOnce(&T) -> (T, R)>(&mut self, f: F) -> (r: Result<R, PoisonedError>)
        requires
            call_requires(f, (&old(self).value(),)),
        ensures
            old(self).poisoned() ==> r is Err && final(self).value() == old(self).value()
                && final(self).poisoned(),
            !old(self).poisoned() ==> (r matches Ok(out) && call_ensures(
                f,
                (&old(self).value(),),
                (final(self).value(), out),
            ) && !final(self).poisoned()),
    {
        if self.poisoned {
            Err(PoisonedError)
        } else {
            let (next, out) = f(self.inner.get());
            *self.inner.get_mut() = next;
            Ok(out)
        }
    }

    /// Consumes the cell and returns the protected value. Ownership
    /// already guarantees that no access is in flight, so neither the
    /// exclusion discipline nor the poisoned state is consulted.
    pub fn into_inner(self) -> (r: T)
        ensures
            r == self.value(),
    {
        self.inner.into_inner()
    }

    /// Borrows the protected value without consulting the exclusion
    /// discipline or the poisoned state; the caller asserts that no
    /// other access is in flight.
    pub fn with_unchecked(&self) -> (r: &T)
        ensures
            *r == self.value(),
    {
        self.inner.get()
    }

    /// Mutably borrows the protected value without consulting the
    /// poisoned state.
    pub fn with_mut_unchecked(&mut self) -> (r: &mut T)
        ensures
            *r == old(self).value(),
            final(self).value() == *final(r),
            final(self).poisoned() == old(self).poisoned(),
    {
        self.inner.get_mut()
    }

    /// Records that a scoped access terminated abnormally while it held
    /// the cell. A host that drives closures which may terminate
    /// abnormally calls this before the cell is seen again; from then
    /// on every scoped access is refused.
    pub fn poison(&mut self)
        ensures
            final(self).poisoned(),
            final(self).value() == old(self).value(),
    {
        self.poisoned = true;
    }

    /// Renders the protected value with its `Debug` formatting.
    pub fn debug_string(&self) -> String where T: core::fmt::Debug {
        fmt_debug(self.inner.get())
    }

    /// Renders the protected value with its `Display` formatting.
    pub fn display_string(&self) -> String where T: core::fmt::Display {
        fmt_display(self.inner.get())
    }
}

impl<T: core::default::Default> core::default::Default for SyncCell<T> {
    /// A fresh, unpoisoned cell around `T`'s default value.
    fn default() -> (r: SyncCell<T>)
        ensures
            !r.poisoned(),
    {
        SyncCell::new(T::default())
    }
}

impl<T> vstd::std_specs::convert::FromSpecImpl<T> for SyncCell<T> {
    closed spec fn obeys_from_spec() -> bool {
        true
    }

    closed spec fn from_spec(value: T) -> SyncCell<T> {
        SyncCell { inner: UnsafeSyncCell::spec_wrap(value), poisoned: false }
    }
}

impl<T> core::convert::From<T> for SyncCell<T> {
    /// A fresh, unpoisoned cell around the given value.
    fn from(value: T) -> (r: SyncCell<T>)
        ensures
            r.value() == value,
            !r.poisoned(),
    {
        SyncCell { inner: UnsafeSyncCell::new(value), poisoned: false }
    }
}

/// Relies on the `Debug` formatting of `T`; which text comes back is
/// `T`'s business, so nothing is assumed of it.
#[verifier::external_body]
fn fmt_debug<T: core::fmt::Debug>(t: &T) -> String {
    format!("{:?}", t)
}

/// Relies on the `Display` formatting of `T`; which text comes back is
/// `T`'s business, so nothing is assumed of it.
#[verifier::external_body]
fn fmt_display<T: core::fmt::Display>(t: &T) -> String {
    format!("{}", t)
}

/// A scoped read is faithful: when the closure handed to `with` can
/// only return a copy of what it was shown — as a well-behaved `clone`
/// does — the result of a successful scoped read is exactly the
/// protected value, for every value the cell may hold.
pub proof fn lemma_scoped_read_faithful<T, F: FnOnce(&T) -> T>(c: SyncCell<T>, f: F, out: T)
    requires
        forall|x: T, y: T| call_ensures(f, (&x,), y) ==> y == x,
        call_ensures(f, (&c.value(),), out),
    ensures
        out == c.value(),
{
}

/// The lifecycle of an exclusion primitive guarding a cell: free,
/// held by one scoped access, or permanently poisoned.
#[derive(Clone, Copy, Debug, PartialEq, Eq, Structural)]
pub enum LockState {
    Unlocked,
    Locked,
    Poisoned,
}

/// What the holder of the primitive reports: a request to enter a
/// scoped access, a normal return from one, or an abnormal termination
/// while inside one.
#[derive(Clone, Copy, Debug, PartialEq, Eq, Structural)]
pub enum LockEvent {
    Acquire,
    ReleaseClean,
    ReleaseAbnormal,
}

/// One step of the exclusion lifecycle: the state after the event, and
/// whether an `Acquire` was granted.
pub open spec fn spec_lock_step(s: LockState, e: LockEvent) -> (LockState, bool) {
    match e {
        LockEvent::Acquire => {
            if s == LockState::Unlocked {
                (LockState::Locked, true)
            } else {
                (s, false)
            }
        },
        LockEvent::ReleaseClean => {
            if s == LockState::Locked {
                (LockState::Unlocked, false)
            } else {
                (s, false)
            }
        },
        LockEvent::ReleaseAbnormal => {
            if s == LockState::Locked {
                (LockState::Poisoned, false)
            } else {
                (s, false)
            }
        },
    }
}

/// Feeds one event to the lifecycle and reports the next state and
/// whether an `Acquire` was granted.
pub fn lock_step(s: LockState, e: LockEvent) -> (r: (LockState, bool))
    ensures
        r == spec_lock_step(s, e),
{
    match e {
        LockEvent::Acquire => {
            if s == LockState::Unlocked {
                (LockState::Locked, true)
            } else {
                (s, false)
            }
        },
        LockEvent::ReleaseClean => {
            if s == LockState::Locked {
                (LockState::Unlocked, false)
            } else {
                (s, false)
            }
        },
        LockEvent::ReleaseAbnormal => {
            if s == LockState::Locked {
                (LockState::Poisoned, false)
            } else {
                (s, false)
            }
        },
    }
}

/// The state after feeding a whole sequence of events, in order.
pub open spec fn spec_lock_run(s: LockState, es: Seq<LockEvent>) -> LockState
    decreases es.len(),
{
    if es.len() == 0 {
        s
    } else {
        spec_lock_run(spec_lock_step(s, es[0]).0, es.drop_first())
    }
}

/// An access is granted only while no other access is in flight: the
/// lifecycle grants an `Acquire` exactly in the free state, which is
/// what makes at most one scoped access live at a time.
pub proof fn lemma_exclusive_grant(s: LockState, e: LockEvent)
    ensures
        spec_lock_step(s, e).1 ==> e == LockEvent::Acquire && s == LockState::Unlocked
            && spec_lock_step(s, e).0 == LockState::Locked,
{
}

/// The poisoned state is absorbing for a single step: no event leaves
/// it, and no access is granted in it.
pub proof fn lemma_poisoned_step(e: LockEvent)
    ensures
        spec_lock_step(LockState::Poisoned, e).0 == LockState::Poisoned,
        !spec_lock_step(LockState::Poisoned, e).1,
{
}

/// Once the lifecycle is poisoned it stays poisoned under every later
/// sequence of events, so every later access attempt is refused.
pub proof fn lemma_poisoned_forever(es: Seq<LockEvent>)
    ensures
        spec_lock_run(LockState::Poisoned, es) == LockState::Poisoned,
    decreases es.len(),
{
    if es.len() == 0 {
    } else {
        lemma_poisoned_step(es[0]);
        lemma_poisoned_forever(es.drop_first());
    }
}

} // verus!
