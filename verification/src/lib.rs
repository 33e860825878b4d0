//! A cross-process advisory lock kept in a small text file.
//!
//! The file holds one of two words, `Locked` or `Open`. Processes that follow
//! the same convention poll the file until it reads `Open` and then write
//! `Locked` to claim the resource. Nothing here touches the file system or
//! the clock: the library decides what is to be read, written or waited
//! for, and the caller performs it and reports back.

pub mod acquire;
pub mod error;
pub mod mutex;
pub mod noise;
pub mod state;
pub mod write;

pub use acquire::{AcquireAction, AcquireEvent, Acquisition};
pub use error::{MutexError, MutexExceptions};
pub use mutex::Mutex;
pub use state::MutexState;
pub use write::StateWrite;
