//! Platform threading collaborator.
//!
//! The rest of the crate needs exactly two things from the platform: an
//! opaque identity token for the calling thread, and equality on such
//! tokens. Both come from the `wasm_thread` crate, which resolves to
//! std's threads on native targets and to web-worker threads on wasm.

use vstd::prelude::*;

verus! {

/// `wasm_thread::ThreadId` is an opaque token naming a thread of
/// execution; it carries no structure the crate relies on beyond
/// equality.
#[verifier::external_type_specification]
#[verifier::external_body]
pub struct ExThreadId(wasm_thread::ThreadId);

/// Relies on `ThreadId`'s derived `PartialEq`: `==` returns whether the
/// two tokens are the same token.
pub assume_specification[ <wasm_thread::ThreadId as PartialEq>::eq ](
    a: &wasm_thread::ThreadId,
    b: &wasm_thread::ThreadId,
) -> (r: bool)
    ensures
        r == (a == b),
;

/// Relies on `wasm_thread::current` and `Thread::id`: returns the
/// identity token of the calling thread, stable for that thread's
/// lifetime and distinct from the token of every other live thread.
/// Which token comes back depends on the caller, so nothing is assumed
/// of the result.
#[verifier::external_body]
pub fn current_thread_id() -> wasm_thread::ThreadId {
    wasm_thread::current().id()
}

/// Relies on `core::mem::needs_drop`: reports whether values of type
/// `T` have teardown code that runs when they are dropped. The answer
/// is a fixed property of `T`, but the documentation allows it to be
/// conservatively `true`, so nothing is assumed of the result.
#[verifier::external_body]
pub fn type_has_teardown<T>() -> bool {
    core::mem::needs_drop::<T>()
}

} // verus!
