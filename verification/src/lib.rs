//! Helpers for exposing fallible, cancellable work across a C-style boundary.
//!
//! Foreign callers cannot receive rich error values, so every fallible entry
//! point answers with an "obviously invalid" sentinel and leaves the failure
//! in a per-thread register ([`error_handling::LastError`]) from which its
//! message can be copied out. Long-running work is described by a
//! [`task::Task`], observed through a [`task::TaskHandle`] and stopped
//! cooperatively through a [`task::CancellationToken`].

pub mod channel;
pub mod error_handling;
pub mod failure;
pub mod nullable;
pub mod panic;
pub mod task;
pub mod utf16;

pub use crate::error_handling::{error_message, take_last_error, update_last_error};
pub use crate::failure::{Failure, FailureView};
pub use crate::nullable::{NullPointer, Nullable};
pub use crate::panic::{catch_panic, Panic};
pub use crate::task::{Cancelled, Task};
