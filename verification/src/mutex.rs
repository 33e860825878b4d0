//! The handle through which a caller configures and drives the mutex.

use crate::error::MutexError;
use crate::state::MutexState;
use crate::write::StateWrite;
use vstd::prelude::*;

verus! {

/// The settings of one mutex and the state that its holder last knew or
/// wants.
///
/// `state` is a local note. It says nothing about the mutex file until a
/// write that was made from it has been performed or the file has been
/// read.
#[derive(Debug)]
pub struct Mutex {
    /// The state as this holder last knew or set it.
    pub state: MutexState,
    /// Where the mutex file is.
    pub path: String,
    /// How long an acquisition is willing to wait, in seconds.
    pub timeout: u64,
}

/// A handle as a plain value.
pub struct MutexView {
    pub state: MutexState,
    pub path: Seq<char>,
    pub timeout: nat,
}

impl View for Mutex {
    type V = MutexView;

    open spec fn view(&self) -> MutexView {
        MutexView { state: self.state, path: self.path@, timeout: self.timeout as nat }
    }
}

/// The handle that a caller starts from: locked, with the mutex file
/// `.mutex.lock` in the working directory and ten seconds of patience.
pub open spec fn default_view() -> MutexView {
    MutexView { state: MutexState::Locked, path: ".mutex.lock"@, timeout: 10 }
}

impl Clone for Mutex {
    /// Returns a handle with the same state and settings.
    fn clone(&self) -> (handle: Mutex)
        ensures
            handle == *self,
    {
        Mutex { state: self.state, path: self.path.clone(), timeout: self.timeout }
    }
}

impl Default for Mutex {
    fn default() -> (handle: Mutex)
        ensures
            handle@ == default_view(),
    {
        Mutex { state: MutexState::Locked, path: ".mutex.lock".to_owned(), timeout: 10 }
    }
}

impl Mutex {
    /// Returns the default handle.
    pub fn new() -> (handle: Mutex)
        ensures
            handle@ == default_view(),
    {
        Mutex::default()
    }

    /// Sets the number of seconds an acquisition waits and returns the
    /// updated handle.
    pub fn set_timeout(&mut self, timeout: u64) -> (handle: Mutex)
        ensures
            final(self)@ == (MutexView { timeout: timeout as nat, ..old(self)@ }),
            handle == *final(self),
    {
        self.timeout = timeout;
        self.clone()
    }

    /// Sets the place of the mutex file and returns the updated handle.
    pub fn set_path(&mut self, path: &str) -> (handle: Mutex)
        ensures
            final(self)@ == (MutexView { path: path@, ..old(self)@ }),
            handle == *final(self),
    {
        self.path = path.to_owned();
        self.clone()
    }

    /// Marks the mutex open and returns the write that makes it so in the
    /// mutex file.
    pub fn open(&mut self) -> (write: StateWrite)
        ensures
            final(self)@ == (MutexView { state: MutexState::Open, ..old(self)@ }),
            write.stores(MutexState::Open, old(self)@.path),
    {
        self.state = MutexState::Open;
        self.state.sync(self.path.as_str())
    }

    /// Marks the mutex locked and returns the write that makes it so in the
    /// mutex file.
    pub fn lock(&mut self) -> (write: StateWrite)
        ensures
            final(self)@ == (MutexView { state: MutexState::Locked, ..old(self)@ }),
            write.stores(MutexState::Locked, old(self)@.path),
    {
        self.state = MutexState::Locked;
        self.state.sync(self.path.as_str())
    }

    /// Marks the mutex locked in this handle only. The mutex file is left
    /// as it is, so this always succeeds.
    pub fn set_locked_local(&mut self) -> (result: Result<Mutex, MutexError>)
        ensures
            final(self)@ == (MutexView { state: MutexState::Locked, ..old(self)@ }),
            result == Ok::<Mutex, MutexError>(*final(self)),
    {
        self.state = MutexState::Locked;
        Ok(self.clone())
    }

    /// Marks the mutex open in this handle only. The mutex file is left as
    /// it is, so this always succeeds.
    pub fn set_open_local(&mut self) -> (result: Result<Mutex, MutexError>)
        ensures
            final(self)@ == (MutexView { state: MutexState::Open, ..old(self)@ }),
            result == Ok::<Mutex, MutexError>(*final(self)),
    {
        self.state = MutexState::Open;
        Ok(self.clone())
    }

    /// Another name for [`Mutex::set_locked_local`].
    pub fn local_lock(&mut self) -> (result: Result<Mutex, MutexError>)
        ensures
            final(self)@ == (MutexView { state: MutexState::Locked, ..old(self)@ }),
            result == Ok::<Mutex, MutexError>(*final(self)),
    {
        self.set_locked_local()
    }

    /// Another name for [`Mutex::set_open_local`]. Despite the word it
    /// begins with, it opens.
    pub fn lock_open(&mut self) -> (result: Result<Mutex, MutexError>)
        ensures
            final(self)@ == (MutexView { state: MutexState::Open, ..old(self)@ }),
            result == Ok::<Mutex, MutexError>(*final(self)),
    {
        self.set_open_local()
    }

    /// Returns the write that stores the handle's state, whichever it is,
    /// in the mutex file. The handle does not change.
    pub fn sync(&mut self) -> (write: StateWrite)
        ensures
            *final(self) == *old(self),
            write.stores(old(self).state, old(self)@.path),
    {
        self.state.sync(self.path.as_str())
    }

    /// Turns the outcome of performing a write of this handle into the
    /// result of the operation: the handle where the file was written, a
    /// file error where it was not.
    pub fn synced(&self, outcome: Result<(), std::io::Error>) -> (result: Result<
        Mutex,
        MutexError,
    >)
        ensures
            result == match outcome {
                Ok(_) => Ok::<Mutex, MutexError>(*self),
                Err(cause) => Err(MutexError::File(cause)),
            },
    {
        match StateWrite::done(outcome) {
            Ok(_) => Ok(self.clone()),
            Err(refused) => Err(refused),
        }
    }
}

} // verus!
