//! The two states of the mutex and their form in the mutex file.

use crate::error::{MutexError, MutexExceptions};
use crate::noise::{
    is_alnum, lemma_clean_text_is_kept, lemma_noise_is_ignored, strip_noise, stripped,
};
use vstd::prelude::*;
use vstd::string::*;
use vstd::utf8::*;

verus! {

/// The error of `String::from_utf8`, carried through unopened.
#[verifier::external_type_specification]
#[verifier::external_body]
pub struct ExFromUtf8Error(std::string::FromUtf8Error);

/// The error with which `String::from_utf8` refuses `bytes`.
pub uninterp spec fn utf8_failure(bytes: Seq<u8>) -> std::string::FromUtf8Error;

/// `String::from_utf8` succeeds exactly on well-formed UTF-8, and the string
/// it then returns is made of the bytes it was given. Its error depends on
/// the bytes alone.
pub assume_specification[ String::from_utf8 ](vec: Vec<u8>) -> (text: Result<
    String,
    std::string::FromUtf8Error,
>)
    ensures
        text is Ok <==> valid_utf8(vec@),
        text matches Ok(s) ==> encode_utf8(s@) == vec@,
        text matches Err(refusal) ==> refusal == utf8_failure(vec@),
;

/// Whether the resource is taken or free. This is what the mutex file
/// stores.
#[derive(Debug, Clone, Copy, PartialEq, Eq, Structural)]
pub enum MutexState {
    Locked,
    Open,
}

/// The state that `text` stands for once its noise is removed, if any.
pub open spec fn decoded(text: Seq<char>) -> Option<MutexState> {
    if stripped(text) == MutexState::Locked.text() {
        Some(MutexState::Locked)
    } else if stripped(text) == MutexState::Open.text() {
        Some(MutexState::Open)
    } else {
        None
    }
}

/// What reading a state from `text` returns.
pub open spec fn parsed(text: Seq<char>) -> Result<MutexState, MutexError> {
    match decoded(text) {
        Some(found) => Ok(found),
        None => Err(MutexError::State(MutexExceptions::InvalidState)),
    }
}

/// Whether `state` is what reading a state from `bytes` returns: the state
/// that their text spells, an invalid state where it spells none, and for
/// bytes that are not UTF-8 a generic error whose text is what the
/// decoder's error prints as.
pub open spec fn parsed_bytes(bytes: Seq<u8>, state: Result<MutexState, MutexError>) -> bool {
    if valid_utf8(bytes) {
        state == parsed(decode_utf8(bytes))
    } else {
        &&& state matches Err(MutexError::Generic(message))
        &&& to_string_from_display_ensures::<std::string::FromUtf8Error>(
            &utf8_failure(bytes),
            message,
        )
    }
}

impl MutexState {
    /// The word that stands for this state in the mutex file.
    pub open spec fn text(self) -> Seq<char> {
        match self {
            MutexState::Locked => "Locked"@,
            MutexState::Open => "Open"@,
        }
    }

    /// The bytes that a mutex file in this state holds.
    pub open spec fn file_bytes(self) -> Seq<u8> {
        encode_utf8(self.text())
    }

    /// Whether the resource is taken.
    pub fn is_locked(&self) -> (locked: bool)
        ensures
            locked == (*self == MutexState::Locked),
    {
        match self {
            MutexState::Locked => true,
            MutexState::Open => false,
        }
    }

    /// Whether the resource is free.
    pub fn is_open(&self) -> (open: bool)
        ensures
            open == (*self == MutexState::Open),
    {
        !self.is_locked()
    }

    /// Returns the word that stands for this state.
    pub fn to_string(&self) -> (word: String)
        ensures
            word@ == self.text(),
    {
        match self {
            MutexState::Locked => "Locked".to_owned(),
            MutexState::Open => "Open".to_owned(),
        }
    }

    /// Reads a state from text, ignoring every character that is not an
    /// ASCII letter or digit. What is left has to be one of the two state
    /// words, letter for letter; anything else is an invalid state.
    pub fn from_string(input: &str) -> (state: Result<MutexState, MutexError>)
        ensures
            state == parsed(input@),
    {
        let cleaned = strip_noise(input);
        if cleaned == MutexState::Locked.to_string() {
            Ok(MutexState::Locked)
        } else if cleaned == MutexState::Open.to_string() {
            Ok(MutexState::Open)
        } else {
            Err(MutexError::State(MutexExceptions::InvalidState))
        }
    }

    /// Reads a state from the bytes of a mutex file. Bytes that are not
    /// UTF-8 give a generic error that carries the decoder's description;
    /// text that spells no state gives an invalid state.
    pub fn from_bytes(bytes: Vec<u8>) -> (state: Result<MutexState, MutexError>)
        ensures
            parsed_bytes(bytes@, state),
    {
        match String::from_utf8(bytes) {
            Err(not_text) => Err(MutexError::Generic(not_text.to_string())),
            Ok(text) => {
                proof {
                    encode_utf8_decode_utf8(text@);
                }
                MutexState::from_string(text.as_str())
            },
        }
    }

    /// Turns the outcome of reading the mutex file into a state. A failed
    /// read is a file error whatever the file would have held; bytes that
    /// were read are decoded.
    pub fn from_read(read: Result<Vec<u8>, std::io::Error>) -> (state: Result<
        MutexState,
        MutexError,
    >)
        ensures
            match read {
                Err(cause) => state == Err::<MutexState, MutexError>(MutexError::File(cause)),
                Ok(bytes) => parsed_bytes(bytes@, state),
            },
    {
        match read {
            Err(cause) => Err(MutexError::File(cause)),
            Ok(bytes) => MutexState::from_bytes(bytes),
        }
    }
}

/// The two state words are made of letters only, and differ.
pub proof fn lemma_state_words(state: MutexState)
    ensures
        forall|i: int| 0 <= i < state.text().len() ==> is_alnum(#[trigger] state.text()[i]),
        stripped(state.text()) == state.text(),
        MutexState::Locked.text() != MutexState::Open.text(),
{
    reveal_strlit("Locked");
    reveal_strlit("Open");
    lemma_clean_text_is_kept(state.text());
    assert(MutexState::Locked.text().len() != MutexState::Open.text().len());
}

/// Decoding the word of a state gives that state back.
pub proof fn lemma_decode_inverts_encode(state: MutexState)
    ensures
        decoded(state.text()) == Some(state),
        parsed(state.text()) == Ok::<MutexState, MutexError>(state),
{
    lemma_state_words(state);
}

/// A text is read as a state exactly when that state's word is what is
/// left of it without its noise.
pub proof fn lemma_decoded_exactly(text: Seq<char>, state: MutexState)
    ensures
        decoded(text) == Some(state) <==> stripped(text) == state.text(),
{
    lemma_state_words(state);
}

/// A state word is still read as its state when noise stands before it,
/// after it, or between any two of its letters.
pub proof fn lemma_decode_tolerates_noise(
    state: MutexState,
    left: Seq<char>,
    noise: Seq<char>,
    right: Seq<char>,
)
    requires
        left + right == state.text(),
        forall|i: int| 0 <= i < noise.len() ==> !is_alnum(#[trigger] noise[i]),
    ensures
        decoded(left + noise + right) == Some(state),
{
    lemma_noise_is_ignored(left, noise, right);
    lemma_state_words(state);
}

/// The bytes written for a state are read back as that state.
pub proof fn lemma_written_state_reads_back(state: MutexState)
    ensures
        valid_utf8(state.file_bytes()),
        forall|read: Result<MutexState, MutexError>| #[trigger]
            parsed_bytes(state.file_bytes(), read) <==> read == Ok::<MutexState, MutexError>(
                state,
            ),
{
    encode_utf8_valid_utf8(state.text());
    encode_utf8_decode_utf8(state.text());
    lemma_decode_inverts_encode(state);
}

} // verus!
