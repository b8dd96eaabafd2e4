//! What the host makes of the guest's answer: the integer that a call returns,
//! and the bytes that the guest leaves in the buffer.

use crate::error::HostError;
use crate::marshal::{window, window_fits};
use vstd::prelude::*;
use vstd::utf8::*;

verus! {

/// How a call of an exported function ended.
#[derive(Clone, Debug, PartialEq, Eq)]
pub enum CallOutcome {
    /// The call failed: the guest trapped, or refused the arguments.
    Trapped,
    /// The call returned these results; one that is no 32-bit integer is
    /// `None`.
    Returned(Vec<Option<i32>>),
}

/// An outcome, as plain values: `None` for a failed call.
pub type OutcomeView = Option<Seq<Option<i32>>>;

impl View for CallOutcome {
    type V = OutcomeView;

    open spec fn view(&self) -> OutcomeView {
        match self {
            CallOutcome::Trapped => None,
            CallOutcome::Returned(results) => Some(results@),
        }
    }
}

/// The integer that an outcome stands for: the first result of a call that
/// returned, where that is a 32-bit integer.
pub open spec fn reply_word(outcome: OutcomeView) -> Result<i32, HostError> {
    match outcome {
        None => Err(HostError::GuestTrap),
        Some(results) => if results.len() > 0 && results[0] is Some {
            Ok(results[0].unwrap())
        } else {
            Err(HostError::SerializationError)
        },
    }
}

/// The status that an outcome stands for: success, if the call returned an
/// integer, whatever the integer.
pub open spec fn reply_status(outcome: OutcomeView) -> Result<(), HostError> {
    match reply_word(outcome) {
        Ok(_) => Ok(()),
        Err(e) => Err(e),
    }
}

/// The bytes that a reply of `word` stands for: the window of that length at
/// `offset`, which has to lie inside `memory`.
pub open spec fn reply_bytes(word: Result<i32, HostError>, memory: Seq<u8>, offset: int) -> Result<
    Seq<u8>,
    HostError,
> {
    match word {
        Err(e) => Err(e),
        Ok(len) => if window_fits(offset, len as int, memory.len() as int) {
            Ok(window(memory, offset, len as int))
        } else {
            Err(HostError::MemoryAccessFault)
        },
    }
}

/// The text that reply bytes stand for: their decoding as UTF-8.
pub open spec fn reply_text(bytes: Result<Seq<u8>, HostError>) -> Result<Seq<char>, HostError> {
    match bytes {
        Err(e) => Err(e),
        Ok(b) => if valid_utf8(b) {
            Ok(decode_utf8(b))
        } else {
            Err(HostError::SerializationError)
        },
    }
}

/// A byte result, as plain values.
pub open spec fn bytes_view(r: Result<Vec<u8>, HostError>) -> Result<Seq<u8>, HostError> {
    match r {
        Ok(bytes) => Ok(bytes@),
        Err(e) => Err(e),
    }
}

/// A text result, as plain values.
pub open spec fn text_view(r: Result<String, HostError>) -> Result<Seq<char>, HostError> {
    match r {
        Ok(text) => Ok(text@),
        Err(e) => Err(e),
    }
}

/// A reply is the whole window that the guest announced, or an error: never a
/// part of it.
pub proof fn lemma_reply_is_whole(word: Result<i32, HostError>, memory: Seq<u8>, offset: int)
    ensures
        reply_bytes(word, memory, offset) matches Ok(bytes) ==> {
            &&& word matches Ok(len)
            &&& bytes.len() == len
            &&& window_fits(offset, len as int, memory.len() as int)
            &&& forall|i: int| 0 <= i < len ==> bytes[i] == memory[offset + i]
        },
        reply_bytes(word, memory, offset) matches Err(e) ==> word == Err::<i32, HostError>(e) || (
        word is Ok && e is MemoryAccessFault),
{
}

/// Text that was decoded from reply bytes encodes to those bytes again.
pub proof fn lemma_reply_text_is_faithful(bytes: Seq<u8>)
    ensures
        reply_text(Ok(bytes)) matches Ok(text) ==> encode_utf8(text) == bytes,
        reply_text(Ok(bytes)) is Ok <==> valid_utf8(bytes),
{
    if valid_utf8(bytes) {
        decode_utf8_encode_utf8(bytes);
    }
}

/// Computes [`reply_word`].
pub fn reply_length(outcome: &CallOutcome) -> (r: Result<i32, HostError>)
    ensures
        r == reply_word(outcome@),
{
    match outcome {
        CallOutcome::Trapped => Err(HostError::GuestTrap),
        CallOutcome::Returned(results) => {
            if results.len() == 0 {
                return Err(HostError::SerializationError);
            }
            match results[0] {
                Some(word) => Ok(word),
                None => Err(HostError::SerializationError),
            }
        },
    }
}

/// Computes [`reply_status`].
pub fn call_status(outcome: &CallOutcome) -> (r: Result<(), HostError>)
    ensures
        r == reply_status(outcome@),
{
    match reply_length(outcome) {
        Ok(_) => Ok(()),
        Err(e) => Err(e),
    }
}

/// `std::string::FromUtf8Error`: why bytes are no UTF-8.
#[verifier::external_type_specification]
#[verifier::external_body]
pub struct ExFromUtf8Error(std::string::FromUtf8Error);

/// `String::from_utf8`: succeeds exactly on valid UTF-8, and the string then
/// consists of the given bytes.
#[verifier::external_body]
fn string_from_utf8(bytes: Vec<u8>) -> (r: Result<String, std::string::FromUtf8Error>)
    ensures
        r is Ok <==> valid_utf8(bytes@),
        r matches Ok(text) ==> encode_utf8(text@) == bytes@,
{
    String::from_utf8(bytes)
}

/// Decodes reply bytes as text. Malformed UTF-8 is an error.
pub fn decode_text(bytes: Vec<u8>) -> (r: Result<String, HostError>)
    ensures
        text_view(r) == reply_text(Ok(bytes@)),
{
    match string_from_utf8(bytes) {
        Ok(text) => {
            proof {
                encode_utf8_decode_utf8(text@);
            }
            Ok(text)
        },
        Err(_) => Err(HostError::SerializationError),
    }
}

} // verus!
