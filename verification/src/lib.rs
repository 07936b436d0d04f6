//! Non-blocking synchronization primitives: a single-assignment cell
//! ([`OnceCell`]), an exclusive-access cell ([`OnceMut`]), a try-lock mutex
//! ([`Mutex`]), and a wrapper that pairs a cell with its constructor
//! ([`LockFreeStatic`]).
//!
//! Every operation completes immediately: contention for a value, a borrow
//! or a lock is answered by a typed refusal, never by waiting.  Each
//! primitive is a small state machine; its transitions are stated in the
//! contracts and its laws (a value is stored at most once, at most one
//! exclusive borrow lives at a time, a leaked lock is never released) are
//! proved as lemmas over those transitions.

pub mod mutex;
pub mod once_cell;
pub mod once_mut;
pub mod static_;

pub use mutex::Mutex;
pub use mutex::MutexGuard;
pub use once_cell::OnceCell;
pub use once_mut::LockGuard;
pub use once_mut::OnceMut;
pub use static_::LockFreeStatic;
