//! What a handle is, seen from outside, and the rules that its operations
//! follow: when a request is rejected, what reaches the guest when it is not,
//! and what the guest's answer stands for.

use crate::error::HostError;
use crate::marshal::{length_word, staged, window, window_fits};
use crate::reply::{reply_bytes, reply_status, reply_text, reply_word, OutcomeView};
use crate::request::{
    async_engine_export,
    buffer_offset_export,
    encoded_request,
    script_engine_export,
    BufferOffset,
    EngineHandle,
    GuestCall,
    RequestView,
};
use vstd::prelude::*;
use vstd::utf8::*;

verus! {

/// Whether an operation holds the instance.
#[derive(Clone, Copy, Debug, PartialEq, Eq, Structural)]
pub enum HostPhase {
    /// No operation is under way; the buffer is free.
    Idle,
    /// An operation is under way; the buffer belongs to it.
    CallInFlight,
}

/// What the host hands to the guest with one call.
pub struct CallRequest {
    /// The name of the export that is called.
    pub export: Seq<char>,
    /// The arguments of the call.
    pub arguments: Seq<i32>,
    /// What the guest's memory holds when the call is made, if it exports one.
    pub memory: Option<Seq<u8>>,
}

/// One call into the guest: what the host handed over, and how the call ended.
pub struct CallRecord {
    /// What the guest was handed.
    pub request: CallRequest,
    /// How the call ended.
    pub outcome: OutcomeView,
}

/// What a handshake that failed at a call did: it called the handshake exports
/// in their order, each without arguments, up to the first call whose outcome
/// stands for no integer, and `error` is what that outcome stands for.
pub open spec fn handshake_failed(calls: Seq<CallRecord>, error: HostError) -> bool {
    &&& 1 <= calls.len() <= 3
    &&& calls[0].request.export == script_engine_export()
    &&& (calls.len() >= 2 ==> calls[1].request.export == async_engine_export())
    &&& (calls.len() >= 3 ==> calls[2].request.export == buffer_offset_export())
    &&& forall|i: int|
        0 <= i < calls.len() ==> (#[trigger] calls[i]).request.arguments == Seq::<i32>::empty()
    &&& forall|i: int| 0 <= i < calls.len() - 1 ==> reply_word((#[trigger] calls[i]).outcome) is Ok
    &&& reply_word(calls.last().outcome) == Err::<i32, HostError>(error)
}

/// A handshake that fails at a call fails with a trap or with a reply that is
/// no integer, and it fails at the first such call: no later export is called.
pub proof fn lemma_handshake_fails_at_its_first_bad_call(calls: Seq<CallRecord>, error: HostError)
    requires
        handshake_failed(calls, error),
    ensures
        error is GuestTrap || error is SerializationError,
        error is GuestTrap <==> calls.last().outcome is None,
        forall|i: int| 0 <= i < calls.len() - 1 ==> (#[trigger] calls[i]).outcome is Some,
{
    assert forall|i: int| 0 <= i < calls.len() - 1 implies (#[trigger] calls[i]).outcome is Some by {
        assert(reply_word(calls[i].outcome) is Ok);
    }
}

/// What a handle is, seen from outside: the negotiated values, the phase,
/// what the host can observe of the instance, and the calls it has made into
/// the guest.
pub struct HostState {
    /// The script engine that every operation runs against.
    pub script_engine: EngineHandle,
    /// The async engine that every operation hands to the guest.
    pub async_engine: EngineHandle,
    /// Where payloads start in the guest's memory.
    pub buffer_offset: BufferOffset,
    /// Whether an operation holds the instance.
    pub phase: HostPhase,
    /// The bytes of the guest's linear memory, if it exports one.
    pub memory: Option<Seq<u8>>,
    /// The names of the functions that the guest exports.
    pub functions: Set<Seq<char>>,
    /// Every call that was made into the guest through this handle, the first
    /// three of them the handshake, in the order in which they were made.
    pub calls: Seq<CallRecord>,
}

impl HostState {
    /// The same state with other memory contents.
    pub open spec fn with_memory(self, memory: Seq<u8>) -> HostState {
        HostState { memory: Some(memory), ..self }
    }

    /// The same state in another phase.
    pub open spec fn in_phase(self, phase: HostPhase) -> HostState {
        HostState { phase, ..self }
    }

    /// The state of a handle right after its handshake: three calls were made,
    /// in this order and each without arguments, and each returned the value
    /// that the handle keeps of it.
    pub open spec fn fresh(self) -> bool {
        &&& self.phase is Idle
        &&& self.calls.len() == 3
        &&& self.calls[0].request.export == script_engine_export()
        &&& self.calls[1].request.export == async_engine_export()
        &&& self.calls[2].request.export == buffer_offset_export()
        &&& forall|i: int|
            0 <= i < 3 ==> (#[trigger] self.calls[i]).request.arguments == Seq::<i32>::empty()
        &&& reply_word(self.calls[0].outcome) == Ok::<i32, HostError>(self.script_engine.0)
        &&& reply_word(self.calls[1].outcome) == Ok::<i32, HostError>(self.async_engine.0)
        &&& reply_word(self.calls[2].outcome) == Ok::<i32, HostError>(self.buffer_offset.0)
        &&& self.functions.contains(script_engine_export())
        &&& self.functions.contains(async_engine_export())
        &&& self.functions.contains(buffer_offset_export())
    }

    /// Two states differ at most in what the memory holds and in the calls
    /// that were made.
    pub open spec fn same_handles(self, other: HostState) -> bool {
        &&& self.script_engine == other.script_engine
        &&& self.async_engine == other.async_engine
        &&& self.buffer_offset == other.buffer_offset
        &&& self.phase == other.phase
        &&& self.functions == other.functions
        &&& (self.memory is Some <==> other.memory is Some)
    }

    /// Why a payload of `len` bytes cannot be written to the buffer, if it
    /// cannot.
    pub open spec fn staging_error(self, len: int) -> Option<HostError> {
        if self.memory is None {
            Some(HostError::ExportMissing)
        } else if !window_fits(
            self.buffer_offset.0 as int,
            len,
            self.memory.unwrap().len() as int,
        ) {
            Some(HostError::MemoryAccessFault)
        } else {
            None
        }
    }

    /// Why a request of `len` bytes for `call` does not reach the guest, if it
    /// does not, once the handle is held: the payload has to fit in the buffer,
    /// and the export that serves the call has to be there.
    pub open spec fn admission_error(self, call: GuestCall, len: int) -> Option<HostError> {
        if self.staging_error(len) is Some {
            self.staging_error(len)
        } else if !self.functions.contains(call.export()) {
            Some(HostError::ExportMissing)
        } else {
            None
        }
    }

    /// Why a request of `len` bytes for `call` does not reach the guest, if it
    /// does not. A rejected request leaves the handle and the guest's memory
    /// as they were.
    pub open spec fn rejection(self, call: GuestCall, len: int) -> Option<HostError> {
        if self.phase is CallInFlight {
            Some(HostError::Busy)
        } else {
            self.admission_error(call, len)
        }
    }

    /// Why a structured request does not reach the guest's dispatcher, if it
    /// does not, once the handle is held: there has to be a memory to write
    /// to, the request has to have an encoding, and the encoding is then
    /// admitted like any payload.
    pub open spec fn dispatch_error(self, request: RequestView) -> Option<HostError> {
        if self.memory is None {
            Some(HostError::ExportMissing)
        } else {
            match encoded_request(request) {
                Err(e) => Some(e),
                Ok(payload) => self.admission_error(
                    GuestCall::RunModuleFunction,
                    payload.len() as int,
                ),
            }
        }
    }

    /// Why a structured request does not reach the guest's dispatcher, if it
    /// does not.
    pub open spec fn dispatch_rejection(self, request: RequestView) -> Option<HostError> {
        if self.phase is CallInFlight {
            Some(HostError::Busy)
        } else {
            self.dispatch_error(request)
        }
    }

    /// The memory once a payload that was admitted has been written.
    pub open spec fn staged_memory(self, payload: Seq<u8>) -> Seq<u8> {
        staged(self.memory.unwrap(), self.buffer_offset.0 as int, payload)
    }

    /// The call that carries `payload` to the export of `call`: the guest is
    /// handed the engine handles and the length of the payload, and finds the
    /// payload in the buffer.
    pub open spec fn request(self, call: GuestCall, payload: Seq<u8>) -> CallRequest {
        CallRequest {
            export: call.export(),
            arguments: call.arguments(
                self.async_engine,
                self.script_engine,
                length_word(payload.len() as int) as i32,
            ),
            memory: Some(self.staged_memory(payload)),
        }
    }

    /// The state in which an admitted request for `call` leaves the handle:
    /// one call more was made, the one that carries the payload, and the
    /// memory is as the guest left it.
    pub open spec fn served(self, before: HostState, call: GuestCall, payload: Seq<u8>) -> bool {
        &&& self.same_handles(before)
        &&& self.calls.len() == before.calls.len() + 1
        &&& self.calls.drop_last() == before.calls
        &&& self.calls.last().request == before.request(call, payload)
    }

    /// How the call that was made last ended.
    pub open spec fn last_outcome(self) -> OutcomeView {
        self.calls.last().outcome
    }

    /// The `len` bytes that the buffer holds, or why they cannot be read.
    pub open spec fn returned_value(self, len: i32) -> Result<Seq<u8>, HostError> {
        match self.memory {
            None => Err(HostError::ExportMissing),
            Some(memory) => reply_bytes(Ok(len), memory, self.buffer_offset.0 as int),
        }
    }

    /// The bytes that the outcome of a call stands for: the first result of
    /// the call is their length, the buffer holds them.
    pub open spec fn bytes_reply(self, outcome: OutcomeView) -> Result<Seq<u8>, HostError> {
        match reply_word(outcome) {
            Err(e) => Err(e),
            Ok(len) => self.returned_value(len),
        }
    }

    /// The text that the outcome of a call stands for.
    pub open spec fn text_reply(self, outcome: OutcomeView) -> Result<Seq<char>, HostError> {
        reply_text(self.bytes_reply(outcome))
    }

    /// What compiling `source` makes of a handle in this state: a request that
    /// is rejected changes nothing and gives its error; one that is admitted is
    /// served with one call, and the result is what the outcome of that call
    /// stands for in the memory that the guest left.
    pub open spec fn compiles_to(
        self,
        after: HostState,
        source: Seq<u8>,
        result: Result<Seq<u8>, HostError>,
    ) -> bool {
        match self.rejection(GuestCall::CompileModule, source.len() as int) {
            Some(e) => result == Err::<Seq<u8>, HostError>(e) && after == self,
            None => {
                &&& after.served(self, GuestCall::CompileModule, source)
                &&& result == after.bytes_reply(after.last_outcome())
            },
        }
    }

    /// What evaluating `text` makes of a handle in this state: a request that
    /// is rejected changes nothing and gives its error; one that is admitted is
    /// served with one call, and succeeded if that call returned an integer.
    pub open spec fn evaluates_to(
        self,
        after: HostState,
        text: Seq<u8>,
        result: Result<(), HostError>,
    ) -> bool {
        match self.rejection(GuestCall::Run, text.len() as int) {
            Some(e) => result == Err::<(), HostError>(e) && after == self,
            None => {
                &&& after.served(self, GuestCall::Run, text)
                &&& result == reply_status(after.last_outcome())
            },
        }
    }

    /// What dispatching `request`, bound to the script engine, makes of a
    /// handle in this state: a request that is rejected changes nothing and
    /// gives its error; one that is admitted is served with one call that
    /// carries its encoding, and the result is the text that the outcome of
    /// that call stands for in the memory that the guest left.
    pub open spec fn dispatches_to(
        self,
        after: HostState,
        request: RequestView,
        result: Result<Seq<char>, HostError>,
    ) -> bool {
        match self.dispatch_rejection(request) {
            Some(e) => result == Err::<Seq<char>, HostError>(e) && after == self,
            None => {
                &&& after.served(
                    self,
                    GuestCall::RunModuleFunction,
                    encoded_request(request)->Ok_0,
                )
                &&& result == after.text_reply(after.last_outcome())
            },
        }
    }

    /// `bytes` is what the buffer holds: the window of that length at the
    /// buffer offset lies inside the memory and equals `bytes`.
    pub open spec fn buffer_holds(self, bytes: Seq<u8>) -> bool {
        &&& self.memory is Some
        &&& window_fits(
            self.buffer_offset.0 as int,
            bytes.len() as int,
            self.memory.unwrap().len() as int,
        )
        &&& bytes == window(self.memory.unwrap(), self.buffer_offset.0 as int, bytes.len() as int)
    }

    /// Handles that differ at most in memory contents are interchangeable:
    /// the relation is an equivalence, so it holds between any two points of
    /// a sequence of operations.
    pub proof fn lemma_same_handles_is_an_equivalence(self, second: HostState, third: HostState)
        ensures
            self.same_handles(self),
            self.same_handles(second) ==> second.same_handles(self),
            self.same_handles(second) && second.same_handles(third) ==> self.same_handles(third),
    {
    }

    /// A handle that is held rejects every request.
    pub proof fn lemma_held_handle_rejects(self, call: GuestCall, len: int, request: RequestView)
        requires
            self.phase is CallInFlight,
        ensures
            self.rejection(call, len) == Some(HostError::Busy),
            self.dispatch_rejection(request) == Some(HostError::Busy),
    {
    }

    /// A request is rejected as a memory fault exactly where the handle is
    /// free, the guest exports its memory, and the payload does not fit behind
    /// the buffer offset. Whether the export that serves the call is there
    /// plays no part.
    pub proof fn lemma_fault_means_overlong(self, call: GuestCall, len: int)
        ensures
            self.rejection(call, len) == Some(HostError::MemoryAccessFault) <==> {
                &&& self.phase is Idle
                &&& self.memory is Some
                &&& !window_fits(
                    self.buffer_offset.0 as int,
                    len,
                    self.memory.unwrap().len() as int,
                )
            },
    {
    }

    /// Once a request for `call` has reached the guest, no later request for
    /// it on the same handle is rejected for a missing export or a held
    /// handle: the only rejection left is a payload that does not fit. The
    /// guest is handed the same engines every time.
    pub proof fn lemma_later_requests_find_the_guest(
        self,
        later: HostState,
        call: GuestCall,
        first: int,
        next: int,
    )
        requires
            self.rejection(call, first) is None,
            later.same_handles(self),
        ensures
            later.memory is Some,
            later.functions.contains(call.export()),
            later.rejection(call, next) is None || later.rejection(call, next) == Some(
                HostError::MemoryAccessFault,
            ),
            forall|len: i32|
                call.arguments(later.async_engine, later.script_engine, len) == call.arguments(
                    self.async_engine,
                    self.script_engine,
                    len,
                ),
    {
    }

    /// Two operations that reach the guest one after the other make their calls
    /// one after the other: the record holds the call of the first, then the
    /// call of the second, and nothing in between. Each finds the handle free
    /// and leaves it free, and each hands the guest the same engines.
    pub proof fn lemma_operations_follow_each_other(
        self,
        between: HostState,
        after: HostState,
        first: GuestCall,
        first_payload: Seq<u8>,
        second: GuestCall,
        second_payload: Seq<u8>,
    )
        requires
            self.phase is Idle,
            between.served(self, first, first_payload),
            after.served(between, second, second_payload),
        ensures
            between.phase is Idle,
            after.phase is Idle,
            after.same_handles(self),
            after.calls.len() == self.calls.len() + 2,
            after.calls.subrange(0, self.calls.len() as int) == self.calls,
            after.calls[self.calls.len() as int].request == self.request(first, first_payload),
            after.calls[self.calls.len() as int].outcome == between.last_outcome(),
            after.calls[self.calls.len() as int + 1].request == between.request(
                second,
                second_payload,
            ),
            after.calls[self.calls.len() as int + 1].request.arguments == second.arguments(
                self.async_engine,
                self.script_engine,
                length_word(second_payload.len() as int) as i32,
            ),
    {
        assert(after.calls.subrange(0, self.calls.len() as int) =~= between.calls.drop_last());
        assert(after.calls[self.calls.len() as int] == between.calls.last());
    }

    /// Whatever a call returned, its reply is a whole window of the memory or
    /// an error: bytes that were read are exactly what the buffer holds, in
    /// the length that the call announced, and text that was decoded encodes
    /// to exactly what the buffer holds.
    pub proof fn lemma_reply_is_what_the_buffer_holds(self, outcome: OutcomeView)
        requires
            self.memory is Some,
        ensures
            self.bytes_reply(outcome) matches Ok(bytes) ==> self.buffer_holds(bytes) && reply_word(
                outcome,
            ) == Ok::<i32, HostError>(bytes.len() as i32),
            self.bytes_reply(outcome) matches Err(e) ==> e is GuestTrap || e is SerializationError
                || e is MemoryAccessFault,
            self.text_reply(outcome) matches Ok(text) ==> self.buffer_holds(encode_utf8(text)),
            self.text_reply(outcome) matches Err(e) ==> e is GuestTrap || e is SerializationError
                || e is MemoryAccessFault,
    {
        match self.bytes_reply(outcome) {
            Ok(bytes) => {
                if valid_utf8(bytes) {
                    decode_utf8_encode_utf8(bytes);
                }
            },
            Err(_) => {},
        }
    }

    /// A compilation gives the bytecode whole or an error, whatever the guest
    /// does and whether the handle is held or free. Bytecode that is returned
    /// is exactly what the buffer holds after the one call that was made, in
    /// the length that the call announced: never less, never other bytes. An
    /// error is one of the handle's own or of the call; it is never one of
    /// bootstrapping.
    pub proof fn lemma_compilation_is_whole_or_an_error(
        self,
        after: HostState,
        source: Seq<u8>,
        result: Result<Seq<u8>, HostError>,
    )
        requires
            self.compiles_to(after, source, result),
        ensures
            result matches Ok(bytes) ==> {
                &&& self.rejection(GuestCall::CompileModule, source.len() as int) is None
                &&& after.calls.len() == self.calls.len() + 1
                &&& after.calls.last().request == self.request(GuestCall::CompileModule, source)
                &&& reply_word(after.last_outcome()) == Ok::<i32, HostError>(bytes.len() as i32)
                &&& after.buffer_holds(bytes)
            },
            result matches Err(e) ==> e !is ArtifactNotFound && e !is InstantiationFailed,
            result matches Err(e) ==> (e is Busy <==> self.phase is CallInFlight),
            self.phase is Idle && self.memory is Some && self.functions.contains(
                GuestCall::CompileModule.export(),
            ) ==> result is Ok || result == Err::<Seq<u8>, HostError>(HostError::GuestTrap)
                || result == Err::<Seq<u8>, HostError>(HostError::SerializationError) || result
                == Err::<Seq<u8>, HostError>(HostError::MemoryAccessFault),
    {
        if self.rejection(GuestCall::CompileModule, source.len() as int) is None {
            after.lemma_reply_is_what_the_buffer_holds(after.last_outcome());
        }
    }

    /// On a free handle whose guest exports its memory, a payload that does
    /// not fit behind the buffer offset is a memory fault, whatever the
    /// operation: not a byte of it is written, and the guest is not called.
    pub proof fn lemma_overlong_payload_is_refused(
        self,
        after: HostState,
        payload: Seq<u8>,
        compiled: Result<Seq<u8>, HostError>,
        evaluated: Result<(), HostError>,
    )
        requires
            self.phase is Idle,
            self.memory is Some,
            !window_fits(
                self.buffer_offset.0 as int,
                payload.len() as int,
                self.memory.unwrap().len() as int,
            ),
        ensures
            self.compiles_to(after, payload, compiled) ==> compiled == Err::<Seq<u8>, HostError>(
                HostError::MemoryAccessFault,
            ) && after.memory == self.memory && after.calls == self.calls,
            self.evaluates_to(after, payload, evaluated) ==> evaluated == Err::<(), HostError>(
                HostError::MemoryAccessFault,
            ) && after.memory == self.memory && after.calls == self.calls,
    {
    }

    /// On a free handle whose guest exports its memory, a request whose
    /// encoding does not fit behind the buffer offset is a memory fault: not a
    /// byte of the encoding is written, and the dispatcher is not called.
    pub proof fn lemma_overlong_request_is_refused(
        self,
        after: HostState,
        request: RequestView,
        answered: Result<Seq<char>, HostError>,
    )
        requires
            self.phase is Idle,
            self.memory is Some,
            encoded_request(request) matches Ok(payload) && !window_fits(
                self.buffer_offset.0 as int,
                payload.len() as int,
                self.memory.unwrap().len() as int,
            ),
            self.dispatches_to(after, request, answered),
        ensures
            answered == Err::<Seq<char>, HostError>(HostError::MemoryAccessFault),
            after.memory == self.memory,
            after.calls == self.calls,
    {
    }

    /// What was written to the buffer is what is read from it, as long as
    /// nothing else is written in between.
    pub proof fn lemma_buffer_round_trip(self, payload: Seq<u8>)
        requires
            self.staging_error(payload.len() as int) is None,
            payload.len() <= i32::MAX,
        ensures
            self.with_memory(self.staged_memory(payload)).returned_value(payload.len() as i32)
                == Ok::<Seq<u8>, HostError>(payload),
            self.with_memory(self.staged_memory(payload)).buffer_holds(payload),
    {
        let memory = self.staged_memory(payload);
        let offset = self.buffer_offset.0 as int;
        assert(window(memory, offset, payload.len() as int) =~= payload);
    }
}

} // verus!
