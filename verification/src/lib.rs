//! Cell types that let a value be handed to, or shared among, threads
//! under an explicit safety contract.
//!
//! The checked wrappers supply the proof themselves: [`SendCell`] records
//! the thread that created it and re-validates that identity on every
//! checked access, and [`SyncCell`] serializes access behind a lock-style
//! state with closure-scoped entry points. The unchecked leaves,
//! [`UnsafeSendCell`] and [`UnsafeSyncCell`], are bare holders whose
//! cross-thread use is the caller's responsibility.

pub mod send_cell;
pub mod sync_cell;
mod sys;
pub mod unsafe_send_cell;
pub mod unsafe_sync_cell;

pub use send_cell::SendCell;
pub use send_cell::SendFuture;
pub use send_cell::ThreadAffinityError;
pub use sync_cell::PoisonedError;
pub use sync_cell::SyncCell;
pub use unsafe_send_cell::UnsafeSendCell;
pub use unsafe_send_cell::UnsafeSendFuture;
pub use unsafe_sync_cell::UnsafeSyncCell;
