//! Waiting for the mutex to open.
//!
//! An acquisition reads the mutex file once a second until it finds the
//! mutex open, a read fails, or its patience is used up. Reading and
//! waiting are the caller's part. The decisions are made here: the caller
//! feeds what happened into [`Acquisition::step`] and does what it answers.
//!
//! Only a locked mutex is waited out. A mutex file that cannot be read, is
//! not text or spells no state ends the acquisition with that failure: a
//! damaged file is reported, not mistaken for a busy one. Giving up after
//! the timeout is reported as already locked, the same as a locked mutex.
//!
//! Finding the mutex open is all that an acquisition does. It writes
//! nothing, so between its end and the caller's own `lock` another process
//! may claim the mutex first.

use crate::error::{MutexError, MutexExceptions};
use crate::mutex::{Mutex, MutexView};
use crate::state::MutexState;
use vstd::prelude::*;

verus! {

/// The seconds between two reads of the mutex file.
pub const POLL_SECONDS: u64 = 1;

/// What the caller reports to an acquisition.
#[derive(Debug)]
pub enum AcquireEvent {
    /// Nothing has happened yet.
    Started,
    /// The mutex file was read and decoded, with this result.
    Read(Result<MutexState, MutexError>),
    /// The wait that was asked for is over.
    Waited,
}

/// What an acquisition asks of the caller.
#[derive(Debug)]
pub enum AcquireAction {
    /// Read the mutex file and report the result.
    Read,
    /// Let this many seconds pass and report back.
    Wait(u64),
    /// Stop, with this result.
    Finish(Result<Mutex, MutexError>),
}

/// One attempt to find the mutex open.
#[derive(Debug)]
pub struct Acquisition {
    /// The settings that the attempt was started with.
    pub handle: Mutex,
    /// The waits after which the attempt went on to read again.
    pub watchdog: u64,
}

/// Whether a read tells the acquisition to wait and look again: the mutex
/// is locked, or the reader says so by way of an error.
pub open spec fn is_busy(read: Result<MutexState, MutexError>) -> bool {
    read == Ok::<MutexState, MutexError>(MutexState::Locked) || read == Err::<
        MutexState,
        MutexError,
    >(MutexError::State(MutexExceptions::AlreadyLocked))
}

impl Acquisition {
    /// Whether the count of waits is within the timeout. Every acquisition
    /// that was begun by [`Mutex::gen`] and driven by [`Acquisition::step`]
    /// is.
    pub open spec fn wf(self) -> bool {
        self.watchdog <= self.handle.timeout
    }

    /// The handle that a successful acquisition returns: the settings it
    /// was started with, and the state that it saw.
    pub open spec fn acquired(self) -> Mutex {
        Mutex { state: MutexState::Open, path: self.handle.path, timeout: self.handle.timeout }
    }

    /// The answer to a read. An open mutex ends the acquisition with
    /// success, a busy one calls for a wait, and every other failure of the
    /// read ends the acquisition with that failure.
    pub open spec fn after_read(self, read: Result<MutexState, MutexError>) -> AcquireAction {
        match read {
            Ok(MutexState::Open) => AcquireAction::Finish(Ok(self.acquired())),
            Ok(MutexState::Locked) => AcquireAction::Wait(POLL_SECONDS),
            Err(MutexError::State(MutexExceptions::AlreadyLocked)) => AcquireAction::Wait(
                POLL_SECONDS,
            ),
            Err(fatal) => AcquireAction::Finish(Err(fatal)),
        }
    }

    /// Whether one more wait uses up the acquisition's patience.
    pub open spec fn exhausted(self) -> bool {
        self.watchdog + 1 > self.handle.timeout
    }

    /// The acquisition and its answer after a wait: it gives up once it has
    /// waited more often than its timeout allows, and reads again
    /// otherwise.
    pub open spec fn after_wait(self) -> (Acquisition, AcquireAction) {
        if self.exhausted() {
            (
                self,
                AcquireAction::Finish(Err(MutexError::State(MutexExceptions::AlreadyLocked))),
            )
        } else {
            (
                Acquisition { handle: self.handle, watchdog: (self.watchdog + 1) as u64 },
                AcquireAction::Read,
            )
        }
    }

    /// The acquisition and its answer after `event`.
    pub open spec fn next(self, event: AcquireEvent) -> (Acquisition, AcquireAction) {
        match event {
            AcquireEvent::Started => (
                Acquisition { handle: self.handle, watchdog: 0 },
                AcquireAction::Read,
            ),
            AcquireEvent::Read(read) => (self, self.after_read(read)),
            AcquireEvent::Waited => self.after_wait(),
        }
    }

    /// Takes in what happened and returns what the caller is to do next.
    pub fn step(&mut self, event: AcquireEvent) -> (action: AcquireAction)
        ensures
            (*final(self), action) == old(self).next(event),
            old(self).wf() ==> final(self).wf(),
    {
        match event {
            AcquireEvent::Started => {
                self.watchdog = 0;
                AcquireAction::Read
            },
            AcquireEvent::Read(Ok(MutexState::Open)) => {
                let found = Mutex {
                    state: MutexState::Open,
                    path: self.handle.path.clone(),
                    timeout: self.handle.timeout,
                };
                AcquireAction::Finish(Ok(found))
            },
            AcquireEvent::Read(Ok(MutexState::Locked)) => AcquireAction::Wait(POLL_SECONDS),
            AcquireEvent::Read(Err(MutexError::State(MutexExceptions::AlreadyLocked))) => {
                AcquireAction::Wait(POLL_SECONDS)
            },
            AcquireEvent::Read(Err(fatal)) => AcquireAction::Finish(Err(fatal)),
            AcquireEvent::Waited => {
                if self.watchdog >= self.handle.timeout {
                    AcquireAction::Finish(Err(MutexError::State(MutexExceptions::AlreadyLocked)))
                } else {
                    self.watchdog = self.watchdog + 1;
                    AcquireAction::Read
                }
            },
        }
    }
}

impl Mutex {
    /// Begins an acquisition with this handle's settings. Its first event
    /// is [`AcquireEvent::Started`].
    pub fn gen(&self) -> (acquisition: Acquisition)
        ensures
            acquisition == (Acquisition { handle: *self, watchdog: 0 }),
            acquisition.wf(),
    {
        Acquisition { handle: self.clone(), watchdog: 0 }
    }

    /// The same as [`Mutex::gen`].
    pub fn generate(&self) -> (acquisition: Acquisition)
        ensures
            acquisition == (Acquisition { handle: *self, watchdog: 0 }),
            acquisition.wf(),
    {
        self.gen()
    }
}

/// How far an acquisition got on a given series of reads.
pub struct Run {
    /// The waits that the caller was asked for.
    pub waits: nat,
    /// The result, where the acquisition has ended.
    pub result: Option<Result<Mutex, MutexError>>,
}

/// The course of an acquisition that stands at `start` and is about to read,
/// where the reads give `reads`, one after the other: each read is
/// answered, each wait that is asked for is made, and the acquisition goes
/// on until it ends or the reads are used up.
pub open spec fn run(start: Acquisition, reads: Seq<Result<MutexState, MutexError>>) -> Run
    decreases reads.len(),
{
    if reads.len() == 0 {
        Run { waits: 0, result: None }
    } else {
        match start.after_read(reads[0]) {
            AcquireAction::Finish(result) => Run { waits: 0, result: Some(result) },
            _ => {
                let (waited, action) = start.after_wait();
                match action {
                    AcquireAction::Finish(result) => Run { waits: 1, result: Some(result) },
                    _ => {
                        let rest = run(waited, reads.drop_first());
                        Run { waits: rest.waits + 1, result: rest.result }
                    },
                }
            },
        }
    }
}

/// An acquisition that finds the mutex open at its first read succeeds at
/// once: it asks for no wait, and the handle it returns is open and has the
/// settings that the acquisition was started with.
pub proof fn lemma_open_mutex_is_acquired_at_once(
    start: Acquisition,
    reads: Seq<Result<MutexState, MutexError>>,
)
    requires
        reads.len() > 0,
        reads[0] == Ok::<MutexState, MutexError>(MutexState::Open),
    ensures
        run(start, reads) == (Run { waits: 0, result: Some(Ok(start.acquired())) }),
        start.acquired()@ == (MutexView { state: MutexState::Open, ..start.handle@ }),
{
}

/// A read that fails for any reason but a locked mutex ends the
/// acquisition at once, with that failure.
pub proof fn lemma_failed_read_is_fatal(
    start: Acquisition,
    reads: Seq<Result<MutexState, MutexError>>,
    failure: MutexError,
)
    requires
        reads.len() > 0,
        reads[0] == Err::<MutexState, MutexError>(failure),
        failure != MutexError::State(MutexExceptions::AlreadyLocked),
    ensures
        run(start, reads) == (Run { waits: 0, result: Some(Err(failure)) }),
{
}

/// An acquisition never asks for more waits than its timeout and one.
pub proof fn lemma_waits_are_bounded(
    start: Acquisition,
    reads: Seq<Result<MutexState, MutexError>>,
)
    requires
        start.wf(),
    ensures
        run(start, reads).waits <= start.handle.timeout - start.watchdog + 1,
        run(start, reads).waits <= reads.len(),
    decreases reads.len(),
{
    if reads.len() > 0 && !start.exhausted() {
        lemma_waits_are_bounded(start.after_wait().0, reads.drop_first());
    }
}

/// While the mutex stays locked an acquisition waits after every read. It
/// is still going on as long as the reads are no more than its timeout
/// allows, and it fails as already locked after the wait that follows the
/// next read.
pub proof fn lemma_locked_mutex_times_out(
    start: Acquisition,
    reads: Seq<Result<MutexState, MutexError>>,
)
    requires
        start.wf(),
        forall|i: int| 0 <= i < reads.len() ==> is_busy(#[trigger] reads[i]),
    ensures
        reads.len() <= start.handle.timeout - start.watchdog ==> run(start, reads) == (Run {
            waits: reads.len(),
            result: None,
        }),
        reads.len() > start.handle.timeout - start.watchdog ==> run(start, reads) == (Run {
            waits: (start.handle.timeout - start.watchdog + 1) as nat,
            result: Some(Err(MutexError::State(MutexExceptions::AlreadyLocked))),
        }),
    decreases reads.len(),
{
    if reads.len() > 0 {
        assert(is_busy(reads[0]));
        if !start.exhausted() {
            let rest = reads.drop_first();
            assert forall|i: int| 0 <= i < rest.len() implies is_busy(#[trigger] rest[i]) by {
                assert(rest[i] == reads[i + 1]);
            }
            lemma_locked_mutex_times_out(start.after_wait().0, rest);
        }
    }
}

/// An acquisition that finds the mutex locked `waits` times and then open
/// succeeds after exactly that many waits, provided its timeout allows
/// them.
pub proof fn lemma_mutex_opens_in_time(
    start: Acquisition,
    reads: Seq<Result<MutexState, MutexError>>,
    waits: nat,
)
    requires
        start.watchdog + waits <= start.handle.timeout,
        waits < reads.len(),
        forall|i: int| 0 <= i < waits ==> is_busy(#[trigger] reads[i]),
        reads[waits as int] == Ok::<MutexState, MutexError>(MutexState::Open),
    ensures
        run(start, reads) == (Run { waits, result: Some(Ok(start.acquired())) }),
    decreases waits,
{
    if waits > 0 {
        assert(is_busy(reads[0]));
        let rest = reads.drop_first();
        assert forall|i: int| 0 <= i < waits - 1 implies is_busy(#[trigger] rest[i]) by {
            assert(rest[i] == reads[i + 1]);
        }
        assert(rest[waits - 1] == reads[waits as int]);
        lemma_mutex_opens_in_time(start.after_wait().0, rest, (waits - 1) as nat);
    }
}

} // verus!
