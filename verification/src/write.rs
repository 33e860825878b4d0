//! Writes to the mutex file, as values.
//!
//! The library never writes. An operation that changes what the file holds
//! returns a [`StateWrite`]; the caller replaces the file's contents with it
//! and hands the outcome back.

use crate::error::MutexError;
use crate::state::{lemma_written_state_reads_back, parsed_bytes, MutexState};
use vstd::prelude::*;
use vstd::utf8::*;

verus! {

/// One pending write: the file at `path` is to hold `contents` and nothing
/// else, whether it existed before or not.
#[derive(Debug)]
pub struct StateWrite {
    pub path: String,
    pub contents: String,
}

impl StateWrite {
    /// The bytes that the file holds once the write is done.
    pub open spec fn bytes(self) -> Seq<u8> {
        encode_utf8(self.contents@)
    }

    /// Whether this is the write that stores `state` at `path`.
    pub open spec fn stores(self, state: MutexState, path: Seq<char>) -> bool {
        self.path@ == path && self.contents@ == state.text()
    }

    /// Turns the outcome of performing a write into the result of the
    /// operation that asked for it: a refusal by the file system is a file
    /// error.
    pub fn done(outcome: Result<(), std::io::Error>) -> (result: Result<(), MutexError>)
        ensures
            result == match outcome {
                Ok(_) => Ok::<(), MutexError>(()),
                Err(cause) => Err(MutexError::File(cause)),
            },
    {
        match outcome {
            Ok(_) => Ok(()),
            Err(cause) => Err(MutexError::File(cause)),
        }
    }
}

impl MutexState {
    /// Returns the write that stores this state in the mutex file at
    /// `path`.
    pub fn sync(&self, path: &str) -> (write: StateWrite)
        ensures
            write.stores(*self, path@),
    {
        StateWrite { path: path.to_owned(), contents: self.to_string() }
    }
}

/// A file that was written for a state reads back as that state, and as
/// nothing else.
pub proof fn lemma_write_then_read(write: StateWrite, state: MutexState, path: Seq<char>)
    requires
        write.stores(state, path),
    ensures
        write.bytes() == state.file_bytes(),
        forall|read: Result<MutexState, MutexError>| #[trigger]
            parsed_bytes(write.bytes(), read) <==> read == Ok::<MutexState, MutexError>(state),
{
    lemma_written_state_reads_back(state);
}

} // verus!
