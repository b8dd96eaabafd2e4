//! A host-side bridge to a sandboxed scripting engine.
//!
//! The engine runs inside a WebAssembly instance. Host and guest share nothing
//! but one window of the guest's linear memory, through which every request and
//! every response passes as bytes.
//!
//! [`host`] holds the handle and its operations, [`state`] what a handle is
//! seen from outside and the rules that the operations follow, [`record`] the
//! record of the calls made into the guest, [`marshal`] the
//! rules of the shared window, [`request`] and [`reply`] what goes into it and
//! what comes out, [`imports`] the assembly of what a module is instantiated
//! against, and [`guest`] what is taken for granted of the WebAssembly runtime.

pub mod error;
pub mod guest;
pub mod host;
pub mod imports;
pub mod marshal;
pub mod record;
pub mod reply;
pub mod request;
pub mod state;

pub use error::HostError;
pub use host::{compile_to_bytecode, Artifact, WasmerHost};
pub use imports::init_wasi_dev_imports;
pub use request::RunModuleFunctionParameters;
pub use state::HostPhase;
