//! The host handle: the owner of one running instance and of the three values
//! negotiated with it, and the operations that callers run through it.
//!
//! An operation writes its request into the guest's memory at the buffer
//! offset, calls one exported function with integer arguments, and reads the
//! response back from the same place. The handle is held for the whole of that
//! sequence and let go on every way out of it.

use crate::error::HostError;
use crate::guest::{
    cranelift_store,
    function_exports,
    has_function,
    holds_nothing,
    instantiate,
    memory_read,
    memory_size,
    memory_write,
};
use crate::marshal::{guest_length, window_start};
use crate::record::{exported_memory, CallLog};
use crate::reply::{
    bytes_view,
    call_status,
    decode_text,
    reply_length,
    text_view,
    CallOutcome,
};
use crate::request::{
    async_engine_export,
    buffer_offset_export,
    encode_request,
    encoded_request,
    memory_name,
    script_engine_export,
    BufferOffset,
    EngineHandle,
    GuestCall,
    RunModuleFunctionParameters,
};
use crate::state::{handshake_failed, HostPhase, HostState};
use vstd::prelude::*;
use vstd::utf8::*;

verus! {

/// A compiled module together with the store it was compiled for and the
/// imports it is to be instantiated against.
pub struct Artifact {
    /// The store in which the module is to be instantiated.
    pub store: wasmer::Store,
    /// The compiled module of the runtime.
    pub module: wasmer::Module,
    /// The host functions that the module requires.
    pub imports: wasmer::Imports,
}

/// One running instance and the values negotiated with it at bootstrap.
pub struct WasmerHost {
    store: wasmer::Store,
    instance: wasmer::Instance,
    /// Names the script engine inside the guest.
    js_rt_ptr: EngineHandle,
    /// Names the async engine inside the guest.
    async_rt_ptr: EngineHandle,
    /// Where the parameter buffer starts in the guest's memory.
    parameter_buffer_ptr: BufferOffset,
    phase: HostPhase,
    calls: CallLog,
}

impl View for WasmerHost {
    type V = HostState;

    closed spec fn view(&self) -> HostState {
        HostState {
            script_engine: self.js_rt_ptr,
            async_engine: self.async_rt_ptr,
            buffer_offset: self.parameter_buffer_ptr,
            phase: self.phase,
            memory: exported_memory(self.store, self.instance),
            functions: function_exports(self.store, self.instance),
            calls: self.calls@,
        }
    }
}

/// The exec name of the memory export.
fn memory_export() -> (name: &'static str)
    ensures
        name@ == memory_name(),
{
    "memory"
}

/// A store whose engine compiles modules with Cranelift: the store that
/// runtimes are resolved for. Every call makes a store of its own, which
/// shares nothing with any instance that exists: an instance made in it is
/// isolated from every other.
pub fn dev_store() -> (store: wasmer::Store)
    ensures
        holds_nothing(store),
{
    cranelift_store()
}

impl WasmerHost {
    /// The instance behind the handle.
    pub closed spec fn guest(&self) -> wasmer::Instance {
        self.instance
    }

    /// The store that the instance lives in.
    pub closed spec fn guest_store(&self) -> wasmer::Store {
        self.store
    }

    /// A handle shows what its store and instance hold.
    pub proof fn lemma_view(&self)
        ensures
            self@.memory == exported_memory(self.guest_store(), self.guest()),
            self@.functions == function_exports(self.guest_store(), self.guest()),
    {
    }

    /// The instance behind the handle.
    pub fn instance(&self) -> (instance: &wasmer::Instance)
        ensures
            *instance == self.guest(),
    {
        &self.instance
    }

    /// The instance behind the handle, to be changed in place. Whatever the
    /// caller puts there, the negotiated values and the phase stay.
    pub fn instance_mut(&mut self) -> (instance: &mut wasmer::Instance)
        ensures
            *instance == old(self).guest(),
            final(self).guest() == *final(instance),
            final(self).guest_store() == old(self).guest_store(),
            final(self)@.script_engine == old(self)@.script_engine,
            final(self)@.async_engine == old(self)@.async_engine,
            final(self)@.buffer_offset == old(self)@.buffer_offset,
            final(self)@.phase == old(self)@.phase,
            final(self)@.calls == old(self)@.calls,
    {
        &mut self.instance
    }

    /// The script engine negotiated at bootstrap.
    pub fn script_engine(&self) -> (handle: EngineHandle)
        ensures
            handle == self@.script_engine,
    {
        self.js_rt_ptr
    }

    /// The async engine negotiated at bootstrap.
    pub fn async_engine(&self) -> (handle: EngineHandle)
        ensures
            handle == self@.async_engine,
    {
        self.async_rt_ptr
    }

    /// The buffer offset negotiated at bootstrap.
    pub fn buffer_offset(&self) -> (offset: BufferOffset)
        ensures
            offset == self@.buffer_offset,
    {
        self.parameter_buffer_ptr
    }

    /// Whether an operation holds the instance.
    pub fn phase(&self) -> (phase: HostPhase)
        ensures
            phase == self@.phase,
    {
        self.phase
    }

    /// Takes hold of the instance for one operation. A handle that is already
    /// held refuses, and stays as it is.
    pub fn begin_call(&mut self) -> (r: Result<(), HostError>)
        ensures
            final(self).guest() == old(self).guest(),
            old(self)@.phase is Idle ==> r is Ok && final(self)@ == old(self)@.in_phase(
                HostPhase::CallInFlight,
            ),
            old(self)@.phase is CallInFlight ==> r == Err::<(), HostError>(HostError::Busy)
                && final(self)@ == old(self)@,
    {
        match self.phase {
            HostPhase::Idle => {
                self.phase = HostPhase::CallInFlight;
                Ok(())
            },
            HostPhase::CallInFlight => Err(HostError::Busy),
        }
    }

    /// Lets go of the instance.
    pub fn end_call(&mut self)
        ensures
            final(self).guest() == old(self).guest(),
            final(self)@ == old(self)@.in_phase(HostPhase::Idle),
    {
        self.phase = HostPhase::Idle;
    }

    /// Instantiates the module of a resolved runtime against its imports, and
    /// hands the instance out with the store it lives in. A runtime that did
    /// not resolve is an error, and nothing is instantiated.
    pub fn new_wasi_dev_instance(artifact: Option<Artifact>) -> (r: Result<
        (wasmer::Store, wasmer::Instance),
        HostError,
    >)
        ensures
            artifact is None ==> r == Err::<(wasmer::Store, wasmer::Instance), HostError>(
                HostError::ArtifactNotFound,
            ),
            artifact is Some ==> r is Ok || r == Err::<(wasmer::Store, wasmer::Instance), HostError>(
                HostError::InstantiationFailed,
            ),
    {
        match artifact {
            None => Err(HostError::ArtifactNotFound),
            Some(found) => {
                let mut store = found.store;
                match instantiate(&mut store, &found.module, &found.imports) {
                    Ok(instance) => Ok((store, instance)),
                    Err(_) => Err(HostError::InstantiationFailed),
                }
            },
        }
    }

    /// Negotiates the two engine handles and the buffer offset with a fresh
    /// instance, in this order, and wraps the instance in a handle. All three
    /// exports have to be there before the first is called. The first call
    /// that fails or does not return an integer ends the handshake with what
    /// its outcome stands for, a trap or a reply that cannot be decoded: no
    /// later export is called, and no handle exists then.
    pub fn handshake(store: wasmer::Store, instance: wasmer::Instance) -> (r: Result<
        WasmerHost,
        HostError,
    >)
        ensures
            r matches Ok(host) ==> {
                &&& host@.fresh()
                &&& host@.functions == function_exports(store, instance)
                &&& (host@.memory is Some <==> exported_memory(store, instance) is Some)
                &&& host.guest() == instance
            },
            r matches Err(e) ==> e is ExportMissing || e is GuestTrap || e is SerializationError,
            r matches Err(e) ==> e is ExportMissing || (exists|log: CallLog|
                #[trigger] handshake_failed(log@, e)),
            r matches Err(e) ==> (e is ExportMissing <==> !(function_exports(
                store,
                instance,
            ).contains(script_engine_export()) && function_exports(store, instance).contains(
                async_engine_export(),
            ) && function_exports(store, instance).contains(buffer_offset_export()))),
    {
        let mut store = store;
        let mut calls = CallLog::new();
        let none: Vec<i32> = Vec::new();
        if !has_function(&store, &instance, "new_runtime") || !has_function(
            &store,
            &instance,
            "new_async_runtime",
        ) || !has_function(&store, &instance, "parameter_buffer_ptr") {
            return Err(HostError::ExportMissing);
        }
        let js_rt_ptr = match reply_length(
            &calls.invoke(&mut store, &instance, "new_runtime", &none),
        ) {
            Ok(word) => EngineHandle(word),
            Err(e) => {
                assert(handshake_failed(calls@, e));
                return Err(e);
            },
        };
        let async_rt_ptr = match reply_length(
            &calls.invoke(&mut store, &instance, "new_async_runtime", &none),
        ) {
            Ok(word) => EngineHandle(word),
            Err(e) => {
                assert(handshake_failed(calls@, e));
                return Err(e);
            },
        };
        let parameter_buffer_ptr = match reply_length(
            &calls.invoke(&mut store, &instance, "parameter_buffer_ptr", &none),
        ) {
            Ok(word) => BufferOffset(word),
            Err(e) => {
                assert(handshake_failed(calls@, e));
                return Err(e);
            },
        };
        Ok(
            WasmerHost {
                store,
                instance,
                js_rt_ptr,
                async_rt_ptr,
                parameter_buffer_ptr,
                phase: HostPhase::Idle,
                calls,
            },
        )
    }

    /// Bootstraps a handle for a resolved runtime: instantiates its module,
    /// then negotiates the engine handles and the buffer offset. Any failure
    /// on the way is final: there is no partly bootstrapped handle. A failure
    /// that is none of the library's own is what the outcome of the handshake
    /// call that failed stands for.
    pub fn new_wasi_dev(artifact: Option<Artifact>) -> (r: Result<WasmerHost, HostError>)
        ensures
            artifact is None ==> r matches Err(HostError::ArtifactNotFound),
            r matches Ok(host) ==> artifact is Some && host@.fresh(),
            r matches Err(e) ==> (e is ArtifactNotFound <==> artifact is None),
            r matches Err(e) ==> e !is Busy && e !is MemoryAccessFault,
            r matches Err(e) ==> e is ArtifactNotFound || e is InstantiationFailed
                || e is ExportMissing || (exists|log: CallLog|
                #[trigger] handshake_failed(log@, e)),
    {
        match Self::new_wasi_dev_instance(artifact) {
            Ok((store, instance)) => Self::handshake(store, instance),
            Err(e) => Err(e),
        }
    }

    /// Writes `source` into the guest's memory at the buffer offset. A payload
    /// that does not fit is refused, and not a byte of it is written.
    pub fn slice_to_buffer(&mut self, source: &[u8]) -> (r: Result<(), HostError>)
        ensures
            final(self).guest() == old(self).guest(),
            old(self)@.staging_error(source@.len() as int) matches Some(e) ==> r == Err::<
                (),
                HostError,
            >(e) && final(self)@ == old(self)@,
            old(self)@.staging_error(source@.len() as int) is None ==> r is Ok && final(self)@
                == old(self)@.with_memory(old(self)@.staged_memory(source@)),
    {
        let capacity = match memory_size(&self.store, &self.instance, memory_export()) {
            Some(capacity) => capacity,
            None => {
                return Err(HostError::ExportMissing);
            },
        };
        let start = match window_start(self.parameter_buffer_ptr.0, source.len(), capacity) {
            Some(start) => start,
            None => {
                return Err(HostError::MemoryAccessFault);
            },
        };
        match memory_write(&mut self.store, &self.instance, memory_export(), start, source) {
            Ok(()) => Ok(()),
            Err(_) => Err(HostError::MemoryAccessFault),
        }
    }

    /// Reads `len` bytes from the guest's memory at the buffer offset. A
    /// length that is negative or reaches beyond the memory is refused.
    pub fn read_returned_value(&self, len: i32) -> (r: Result<Vec<u8>, HostError>)
        ensures
            bytes_view(r) == self@.returned_value(len),
    {
        let capacity = match memory_size(&self.store, &self.instance, memory_export()) {
            Some(capacity) => capacity,
            None => {
                return Err(HostError::ExportMissing);
            },
        };
        if len < 0 {
            return Err(HostError::MemoryAccessFault);
        }
        let count: usize = len as usize;
        let start = match window_start(self.parameter_buffer_ptr.0, count, capacity) {
            Some(start) => start,
            None => {
                return Err(HostError::MemoryAccessFault);
            },
        };
        match memory_read(&self.store, &self.instance, memory_export(), start, count) {
            Ok(bytes) => Ok(bytes),
            Err(_) => Err(HostError::MemoryAccessFault),
        }
    }

    /// Reads the bytes that the outcome of a call stands for: as many bytes
    /// from the buffer as the call announced.
    pub fn read_reply(&self, outcome: &CallOutcome) -> (r: Result<Vec<u8>, HostError>)
        ensures
            bytes_view(r) == self@.bytes_reply(outcome@),
    {
        match reply_length(outcome) {
            Ok(len) => self.read_returned_value(len),
            Err(e) => Err(e),
        }
    }

    /// Reads the text that the outcome of a call stands for.
    pub fn read_text_reply(&self, outcome: &CallOutcome) -> (r: Result<String, HostError>)
        ensures
            text_view(r) == self@.text_reply(outcome@),
    {
        match self.read_reply(outcome) {
            Ok(json_bytes) => decode_text(json_bytes),
            Err(e) => Err(e),
        }
    }

    /// Checks that a request of `len` bytes for `call` can reach the guest.
    fn check_request(&self, call: GuestCall, len: usize) -> (r: Result<(), HostError>)
        ensures
            self@.admission_error(call, len as int) matches Some(e) ==> r == Err::<(), HostError>(
                e,
            ),
            self@.admission_error(call, len as int) is None ==> r is Ok,
    {
        let capacity = match memory_size(&self.store, &self.instance, memory_export()) {
            Some(capacity) => capacity,
            None => {
                return Err(HostError::ExportMissing);
            },
        };
        if window_start(self.parameter_buffer_ptr.0, len, capacity).is_none() {
            return Err(HostError::MemoryAccessFault);
        }
        if !has_function(&self.store, &self.instance, call.export_name()) {
            return Err(HostError::ExportMissing);
        }
        Ok(())
    }

    /// Writes the request, calls the export with the engine handles and the
    /// length of the request, and tells how the call ended. The caller holds
    /// the handle.
    fn exchange(&mut self, call: GuestCall, payload: &[u8]) -> (r: Result<CallOutcome, HostError>)
        ensures
            final(self)@.same_handles(old(self)@),
            final(self).guest() == old(self).guest(),
            old(self)@.admission_error(call, payload@.len() as int) matches Some(e) ==> r == Err::<
                CallOutcome,
                HostError,
            >(e) && final(self)@ == old(self)@,
            old(self)@.admission_error(call, payload@.len() as int) is None ==> {
                &&& r matches Ok(outcome)
                &&& outcome@ == final(self)@.last_outcome()
                &&& final(self)@.served(old(self)@, call, payload@)
            },
    {
        match self.check_request(call, payload.len()) {
            Ok(()) => {},
            Err(e) => {
                return Err(e);
            },
        }
        match self.slice_to_buffer(payload) {
            Ok(()) => {},
            Err(e) => {
                return Err(e);
            },
        }
        let args = call.call_arguments(
            self.async_rt_ptr,
            self.js_rt_ptr,
            guest_length(payload.len()),
        );
        let outcome = self.calls.invoke(
            &mut self.store,
            &self.instance,
            call.export_name(),
            &args,
        );
        assert(self@.calls.drop_last() =~= old(self)@.calls);
        Ok(outcome)
    }

    /// Compiles `code` to bytecode, with the handle held.
    fn compile_in_flight(&mut self, code: &[u8]) -> (r: Result<Vec<u8>, HostError>)
        ensures
            final(self)@.same_handles(old(self)@),
            final(self).guest() == old(self).guest(),
            old(self)@.admission_error(GuestCall::CompileModule, code@.len() as int) matches Some(
                e,
            ) ==> r == Err::<Vec<u8>, HostError>(e) && final(self)@ == old(self)@,
            old(self)@.admission_error(GuestCall::CompileModule, code@.len() as int) is None ==> {
                &&& final(self)@.served(old(self)@, GuestCall::CompileModule, code@)
                &&& bytes_view(r) == final(self)@.bytes_reply(final(self)@.last_outcome())
            },
    {
        let outcome = match self.exchange(GuestCall::CompileModule, code) {
            Ok(outcome) => outcome,
            Err(e) => {
                return Err(e);
            },
        };
        let r = self.read_reply(&outcome);
        r
    }

    /// Compiles `code` to bytecode inside the guest. The source is written to
    /// the buffer, the guest's compiler is called with the two engine handles
    /// and the length of the source, and the integer it returns is taken as
    /// the length of the bytecode, which is read back from the buffer. `_name`
    /// is not part of the exchange.
    ///
    /// A request that is rejected leaves the handle and the guest's memory as
    /// they were. Once the guest has been called, the result is what the
    /// outcome of the call stands for in the memory that the guest left: the
    /// bytes in the buffer, whole, or an error.
    pub fn compile_to_bytecode(&mut self, _name: &str, code: &str) -> (r: Result<
        Vec<u8>,
        HostError,
    >)
        ensures
            final(self)@.same_handles(old(self)@),
            final(self).guest() == old(self).guest(),
            old(self)@.compiles_to(final(self)@, encode_utf8(code@), bytes_view(r)),
    {
        match self.begin_call() {
            Ok(()) => {},
            Err(e) => {
                return Err(e);
            },
        }
        let r = self.compile_in_flight(code.as_bytes());
        self.end_call();
        r
    }

    /// Evaluates `js` inside the guest. The text is written to the buffer and
    /// the guest's evaluator is called with the two engine handles and the
    /// length of the text. The integer it returns is not looked at; whatever
    /// the evaluation did stays in the engine, for later calls on this handle.
    ///
    /// A request that is rejected leaves the handle and the guest's memory as
    /// they were. Once the guest has been called, the evaluation succeeded
    /// exactly if the call returned an integer; a call that failed is a trap.
    pub fn eval(&mut self, js: &str) -> (r: Result<(), HostError>)
        ensures
            final(self)@.same_handles(old(self)@),
            final(self).guest() == old(self).guest(),
            old(self)@.evaluates_to(final(self)@, encode_utf8(js@), r),
    {
        match self.begin_call() {
            Ok(()) => {},
            Err(e) => {
                return Err(e);
            },
        }
        let r = self.exchange(GuestCall::Run, js.as_bytes());
        self.end_call();
        match r {
            Ok(outcome) => call_status(&outcome),
            Err(e) => Err(e),
        }
    }

    /// Runs a module function, with the handle held and the request bound to
    /// the script engine.
    fn dispatch_in_flight(&mut self, parameters: &RunModuleFunctionParameters) -> (r: Result<
        String,
        HostError,
    >)
        ensures
            final(self)@.same_handles(old(self)@),
            final(self).guest() == old(self).guest(),
            old(self)@.dispatch_error(parameters@) matches Some(e) ==> r == Err::<
                String,
                HostError,
            >(e) && final(self)@ == old(self)@,
            old(self)@.dispatch_error(parameters@) is None ==> {
                &&& final(self)@.served(
                    old(self)@,
                    GuestCall::RunModuleFunction,
                    encoded_request(parameters@)->Ok_0,
                )
                &&& text_view(r) == final(self)@.text_reply(final(self)@.last_outcome())
            },
    {
        if memory_size(&self.store, &self.instance, memory_export()).is_none() {
            return Err(HostError::ExportMissing);
        }
        let serialized = match encode_request(parameters) {
            Ok(serialized) => serialized,
            Err(e) => {
                return Err(e);
            },
        };
        let outcome = match self.exchange(GuestCall::RunModuleFunction, serialized.as_slice()) {
            Ok(outcome) => outcome,
            Err(e) => {
                return Err(e);
            },
        };
        let r = self.read_text_reply(&outcome);
        r
    }

    /// Runs a function of a module inside the guest and returns its answer as
    /// text. Before anything else the request is bound to this handle's script
    /// engine, whatever engine the caller had put in it. The bound request is
    /// encoded and written to the buffer, the guest's dispatcher is called with
    /// the async engine and the length of the encoding, and the integer it
    /// returns is taken as the length of the answer, which is read back from
    /// the buffer and decoded as UTF-8.
    ///
    /// A request that is rejected leaves the handle and the guest's memory as
    /// they were. Once the guest has been called, the result is what the
    /// outcome of the call stands for in the memory that the guest left: the
    /// text in the buffer, whole, or an error.
    pub fn run_module_function(
        &mut self,
        parameters: &mut RunModuleFunctionParameters,
    ) -> (r: Result<String, HostError>)
        ensures
            final(parameters)@ == old(parameters)@.bound_to(old(self)@.script_engine),
            final(self)@.same_handles(old(self)@),
            final(self).guest() == old(self).guest(),
            old(self)@.dispatches_to(final(self)@, final(parameters)@, text_view(r)),
    {
        parameters.set_rt(self.js_rt_ptr.to_unsigned());
        match self.begin_call() {
            Ok(()) => {},
            Err(e) => {
                return Err(e);
            },
        }
        let r = self.dispatch_in_flight(parameters);
        self.end_call();
        r
    }
}

/// A fresh handle `before` compiled `source` once, which left it as `after`
/// and gave `result`: the handle had just been bootstrapped, with its three
/// handshake calls and no other, and the compilation went as every
/// compilation on a handle goes.
pub open spec fn compiled_once(
    before: WasmerHost,
    after: WasmerHost,
    source: Seq<u8>,
    result: Result<Seq<u8>, HostError>,
) -> bool {
    &&& before@.fresh()
    &&& after.guest() == before.guest()
    &&& before@.compiles_to(after@, source, result)
}

/// Compiles `js` to bytecode on a fresh instance of a resolved runtime: the
/// instance is bootstrapped, serves this one call, and is dropped. Nothing is
/// kept from one call to the next.
///
/// Without a resolved runtime there is nothing to bootstrap. With one, either
/// bootstrapping fails, at the instantiation, for a missing export, or at one
/// of the handshake calls, or there is a fresh handle that compiled the source
/// once: the result is then that compilation's result. Bytecode that is
/// returned is what the guest left in the buffer of that handle, whole.
pub fn compile_to_bytecode(artifact: Option<Artifact>, js: &str) -> (r: Result<Vec<u8>, HostError>)
    ensures
        artifact is None ==> r == Err::<Vec<u8>, HostError>(HostError::ArtifactNotFound),
        r matches Err(e) ==> (e is ArtifactNotFound <==> artifact is None) && e !is Busy,
        artifact is Some ==> {
            ||| r matches Err(e) && (e is InstantiationFailed || e is ExportMissing
                || (exists|log: CallLog| #[trigger] handshake_failed(log@, e)))
            ||| (exists|before: WasmerHost, after: WasmerHost| #[trigger]
                compiled_once(before, after, encode_utf8(js@), bytes_view(r)))
        },
        r is Ok ==> artifact is Some && (exists|before: WasmerHost, after: WasmerHost|
            #[trigger] compiled_once(before, after, encode_utf8(js@), bytes_view(r))
                && after@.served(before@, GuestCall::CompileModule, encode_utf8(js@))
                && bytes_view(r) == after@.bytes_reply(after@.last_outcome())
                && after@.buffer_holds(r->Ok_0@)),
{
    let mut rt = match WasmerHost::new_wasi_dev(artifact) {
        Ok(rt) => rt,
        Err(e) => {
            return Err(e);
        },
    };
    let ghost before = rt;
    let r = rt.compile_to_bytecode("mod1", js);
    proof {
        assert(compiled_once(before, rt, encode_utf8(js@), bytes_view(r)));
        before@.lemma_compilation_is_whole_or_an_error(rt@, encode_utf8(js@), bytes_view(r));
    }
    r
}

} // verus!
