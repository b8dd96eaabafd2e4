//! What the host hands to the guest: which export it calls, with which
//! arguments, and how a structured request becomes bytes.

use crate::error::HostError;
use crate::reply::bytes_view;
use vstd::prelude::*;

verus! {

/// An integer that names engine state inside the guest. The host never looks
/// behind it; it only hands it back as a call argument.
#[derive(Clone, Copy, Debug, PartialEq, Eq, Structural)]
pub struct EngineHandle(pub i32);

/// The position in the guest's linear memory at which every payload starts.
#[derive(Clone, Copy, Debug, PartialEq, Eq, Structural)]
pub struct BufferOffset(pub i32);

/// The exported functions that carry a payload.
#[derive(Clone, Copy, Debug, PartialEq, Eq, Structural)]
pub enum GuestCall {
    /// Compiles the source text in the buffer; the reply is the bytecode.
    CompileModule,
    /// Evaluates the source text in the buffer; the reply is a status.
    Run,
    /// Dispatches the encoded request in the buffer; the reply is text.
    RunModuleFunction,
}

/// The name of the memory export through which payloads pass.
pub open spec fn memory_name() -> Seq<char> {
    "memory"@
}

/// The name of the export that allocates a script engine.
pub open spec fn script_engine_export() -> Seq<char> {
    "new_runtime"@
}

/// The name of the export that allocates an async engine.
pub open spec fn async_engine_export() -> Seq<char> {
    "new_async_runtime"@
}

/// The name of the export that reports the buffer offset.
pub open spec fn buffer_offset_export() -> Seq<char> {
    "parameter_buffer_ptr"@
}

impl EngineHandle {
    /// The handle as the unsigned 32-bit word with the same bits.
    pub open spec fn unsigned(self) -> u32 {
        if self.0 >= 0 {
            self.0 as u32
        } else {
            (self.0 + 0x1_0000_0000) as u32
        }
    }

    /// Computes [`EngineHandle::unsigned`].
    pub fn to_unsigned(self) -> (word: u32)
        ensures
            word == self.unsigned(),
    {
        if self.0 >= 0 {
            self.0 as u32
        } else {
            (self.0 as i64 + 0x1_0000_0000i64) as u32
        }
    }
}

impl GuestCall {
    /// The name of the export that serves this call.
    pub open spec fn export(self) -> Seq<char> {
        match self {
            GuestCall::CompileModule => "compile_module"@,
            GuestCall::Run => "run"@,
            GuestCall::RunModuleFunction => "run_module_function"@,
        }
    }

    /// The arguments of this call, for a payload whose length word is `len`:
    /// the engine handles the export operates on, then the length.
    pub open spec fn arguments(
        self,
        async_engine: EngineHandle,
        script_engine: EngineHandle,
        len: i32,
    ) -> Seq<i32> {
        match self {
            GuestCall::CompileModule => seq![async_engine.0, script_engine.0, len],
            GuestCall::Run => seq![async_engine.0, script_engine.0, len],
            GuestCall::RunModuleFunction => seq![async_engine.0, len],
        }
    }

    /// Computes [`GuestCall::export`].
    pub fn export_name(self) -> (name: &'static str)
        ensures
            name@ == self.export(),
    {
        match self {
            GuestCall::CompileModule => "compile_module",
            GuestCall::Run => "run",
            GuestCall::RunModuleFunction => "run_module_function",
        }
    }

    /// Computes [`GuestCall::arguments`].
    pub fn call_arguments(
        self,
        async_engine: EngineHandle,
        script_engine: EngineHandle,
        len: i32,
    ) -> (args: Vec<i32>)
        ensures
            args@ == self.arguments(async_engine, script_engine, len),
    {
        let mut args: Vec<i32> = Vec::new();
        args.push(async_engine.0);
        match self {
            GuestCall::CompileModule => {
                args.push(script_engine.0);
            },
            GuestCall::Run => {
                args.push(script_engine.0);
            },
            GuestCall::RunModuleFunction => {},
        }
        args.push(len);
        assert(args@ =~= self.arguments(async_engine, script_engine, len));
        args
    }
}

/// A request to run a function of a module inside the guest.
#[derive(Clone, Debug)]
pub struct RunModuleFunctionParameters {
    /// The script engine the guest is to run the function against.
    pub rt: u32,
    /// The name of the function.
    pub function: String,
    /// The arguments of the function, each in its textual encoding.
    pub args: Vec<String>,
}

/// A request, as plain values.
pub struct RequestView {
    /// The script engine the guest is to run the function against.
    pub rt: u32,
    /// The name of the function.
    pub function: Seq<char>,
    /// The arguments of the function.
    pub args: Seq<Seq<char>>,
}

impl RequestView {
    /// The same request, bound to the script engine `handle`.
    pub open spec fn bound_to(self, handle: EngineHandle) -> RequestView {
        RequestView { rt: handle.unsigned(), ..self }
    }

    /// Binding a request overrides whatever engine it named before: two
    /// requests for the same function with the same arguments are one request
    /// once bound.
    pub proof fn lemma_binding_overrides(self, other: RequestView, handle: EngineHandle)
        requires
            self.function == other.function,
            self.args == other.args,
        ensures
            self.bound_to(handle) == other.bound_to(handle),
            encoded_request(self.bound_to(handle)) == encoded_request(other.bound_to(handle)),
    {
    }
}

impl View for RunModuleFunctionParameters {
    type V = RequestView;

    open spec fn view(&self) -> RequestView {
        RequestView { rt: self.rt, function: self.function@, args: self.args.deep_view() }
    }
}

impl RunModuleFunctionParameters {
    /// A request for `function` with `args`, not yet bound to an engine.
    pub fn new(function: String, args: Vec<String>) -> (request: Self)
        ensures
            request@ == (RequestView { rt: 0, function: function@, args: args.deep_view() }),
    {
        RunModuleFunctionParameters { rt: 0, function, args }
    }

    /// Binds the request to the script engine `rt`.
    pub fn set_rt(&mut self, rt: u32)
        ensures
            final(self)@ == (RequestView { rt, ..old(self)@ }),
    {
        self.rt = rt;
    }
}

/// `bincode::ErrorKind`: why a value could not be encoded.
#[verifier::external_type_specification]
#[verifier::external_body]
pub struct ExBincodeErrorKind(bincode::ErrorKind);

/// The bytes that `bincode` encodes a request to, field by field in the order
/// engine, function, arguments; `None` where it reports a failure.
pub uninterp spec fn bincode_request(rt: u32, function: Seq<char>, args: Seq<Seq<char>>) -> Option<
    Seq<u8>,
>;

/// `bincode::serialize` on the three fields of a request. The encoding depends
/// on these values alone, so its result carries a name.
#[verifier::external_body]
fn bincode_serialize(rt: u32, function: &String, args: &Vec<String>) -> (r: Result<
    Vec<u8>,
    Box<bincode::ErrorKind>,
>)
    ensures
        r matches Ok(bytes) ==> bincode_request(rt, function@, args.deep_view()) == Some(bytes@),
        r is Err ==> bincode_request(rt, function@, args.deep_view()) is None,
{
    bincode::serialize(&(rt, function, args))
}

/// The payload of a request: its encoding, or the error that stands for a
/// request that cannot be encoded.
pub open spec fn encoded_request(request: RequestView) -> Result<Seq<u8>, HostError> {
    match bincode_request(request.rt, request.function, request.args) {
        Some(bytes) => Ok(bytes),
        None => Err(HostError::SerializationError),
    }
}

/// Encodes a request as the payload that the guest's dispatcher reads.
pub fn encode_request(request: &RunModuleFunctionParameters) -> (r: Result<Vec<u8>, HostError>)
    ensures
        bytes_view(r) == encoded_request(request@),
{
    match bincode_serialize(request.rt, &request.function, &request.args) {
        Ok(bytes) => Ok(bytes),
        Err(_) => Err(HostError::SerializationError),
    }
}

} // verus!
