//! The WebAssembly runtime, as far as the host relies on it.
//!
//! Nothing in this file is proved. Each item states, for one function of the
//! `wasmer` crate, what the rest of the library takes for granted. An instance
//! in its store is modelled by two things that the host can observe from
//! outside: the names under which it exports functions, and the bytes of the
//! memories it exports. Only exports that live in the store count: `wasmer`
//! panics on any other, so the host never touches them.
//!
//! A guest is taken to run only while a call into it is under way: between two
//! calls its memories hold what the last call, or the host, left in them.

use crate::marshal::{staged, window, window_fits};
use vstd::prelude::*;

verus! {

/// `wasmer::Store`: what holds the state of every instance made in it.
#[verifier::external_type_specification]
#[verifier::external_body]
pub struct ExStore(wasmer::Store);

/// `wasmer::Module`: a compiled module.
#[verifier::external_type_specification]
#[verifier::external_body]
pub struct ExModule(wasmer::Module);

/// `wasmer::Imports`: what a module is instantiated against.
#[verifier::external_type_specification]
#[verifier::external_body]
pub struct ExImports(wasmer::Imports);

/// `wasmer::Exports`: a set of named externals.
#[verifier::external_type_specification]
#[verifier::external_body]
pub struct ExExports(wasmer::Exports);

/// `wasmer::Instance`: a module instantiated in a store.
#[verifier::external_type_specification]
#[verifier::external_body]
pub struct ExInstance(wasmer::Instance);

/// `wasmer::InstantiationError`: why a module could not be instantiated.
#[verifier::external_type_specification]
#[verifier::external_body]
pub struct ExInstantiationError(wasmer::InstantiationError);

/// `wasmer::RuntimeError`: why a call into a guest failed.
#[verifier::external_type_specification]
#[verifier::external_body]
pub struct ExRuntimeError(wasmer::RuntimeError);

/// `wasmer::MemoryAccessError`: why a memory could not be read or written.
#[verifier::external_type_specification]
#[verifier::external_body]
pub struct ExMemoryAccessError(wasmer::MemoryAccessError);

/// The memories that an instance exports and that live in the store, by export
/// name, each with the bytes that a view of it shows.
pub uninterp spec fn memory_exports(store: wasmer::Store, instance: wasmer::Instance) -> Map<
    Seq<char>,
    Seq<u8>,
>;

/// The names under which an instance exports a function that lives in the
/// store.
pub uninterp spec fn function_exports(store: wasmer::Store, instance: wasmer::Instance) -> Set<
    Seq<char>,
>;

/// The imports that a set of imports holds, each as its namespace and name.
pub uninterp spec fn import_names(imports: wasmer::Imports) -> Set<(Seq<char>, Seq<char>)>;

/// The names that a set of exports holds.
pub uninterp spec fn export_names(exports: wasmer::Exports) -> Set<Seq<char>>;

/// The imports that `names` make up under the namespace `namespace`.
pub open spec fn namespaced(namespace: Seq<char>, names: Set<Seq<char>>) -> Set<
    (Seq<char>, Seq<char>),
> {
    Set::new(|import: (Seq<char>, Seq<char>)| import.0 == namespace && names.contains(import.1))
}

/// The store holds nothing: no export of any instance lives in it.
pub open spec fn holds_nothing(store: wasmer::Store) -> bool {
    &&& forall|instance: wasmer::Instance, name: Seq<char>|
        !(#[trigger] function_exports(store, instance).contains(name))
    &&& forall|instance: wasmer::Instance, name: Seq<char>|
        !(#[trigger] memory_exports(store, instance).contains_key(name))
}

/// `wasmer::Store::new` on the default `Cranelift` configuration: a store
/// whose engine compiles with Cranelift. The store is new: it has an identity
/// of its own and no object in it, so no export of any instance lives in it.
#[verifier::external_body]
pub(crate) fn cranelift_store() -> (store: wasmer::Store)
    ensures
        holds_nothing(store),
{
    wasmer::Store::new(wasmer_compiler_cranelift::Cranelift::default())
}

/// `wasmer::Imports::register_namespace`: adds every export of `contents` to
/// the imports, under the namespace `namespace`.
#[verifier::external_body]
pub(crate) fn register_namespace(
    imports: &mut wasmer::Imports,
    namespace: &str,
    contents: wasmer::Exports,
)
    ensures
        import_names(*final(imports)) == import_names(*old(imports)).union(
            namespaced(namespace@, export_names(contents)),
        ),
{
    imports.register_namespace(namespace, contents)
}

/// `wasmer::Instance::new`: instantiates a module in a store, against a set of
/// imports. Nothing is claimed of the outcome.
#[verifier::external_body]
pub(crate) fn instantiate(
    store: &mut wasmer::Store,
    module: &wasmer::Module,
    imports: &wasmer::Imports,
) -> (r: Result<wasmer::Instance, wasmer::InstantiationError>) {
    wasmer::Instance::new(store, module, imports)
}

/// `wasmer::Exports::get_function` and `wasmer::Function::is_from_store`:
/// whether the instance exports, under `name`, a function of this store. An
/// export of another kind under that name does not count.
#[verifier::external_body]
pub(crate) fn has_function(
    store: &wasmer::Store,
    instance: &wasmer::Instance,
    name: &str,
) -> (found: bool)
    ensures
        found == function_exports(*store, *instance).contains(name@),
{
    instance.exports.get_function(name).is_ok_and(|function| function.is_from_store(store))
}

/// `wasmer::Function::call` on the function exported under `name`, with 32-bit
/// integer arguments. The call either fails, or returns its results, of which
/// each 32-bit integer is handed on as `Some`.
///
/// The guest may rewrite its memories during the call, so nothing is claimed of
/// the bytes afterwards, nor of the results; the exports themselves stay. A
/// guest that never returns keeps this call from returning.
#[verifier::external_body]
pub(crate) fn call_function(
    store: &mut wasmer::Store,
    instance: &wasmer::Instance,
    name: &str,
    args: &Vec<i32>,
) -> (r: Result<Vec<Option<i32>>, wasmer::RuntimeError>)
    requires
        function_exports(*old(store), *instance).contains(name@),
    ensures
        function_exports(*final(store), *instance) == function_exports(*old(store), *instance),
        memory_exports(*final(store), *instance).dom() == memory_exports(
            *old(store),
            *instance,
        ).dom(),
{
    let values: Vec<wasmer::Value> = args.iter().map(|word| wasmer::Value::I32(*word)).collect();
    let function = instance.exports.get_function(name).map_err(
        |e| wasmer::RuntimeError::new(e.to_string()),
    )?;
    let results = function.call(store, &values)?;
    Ok(results.iter().map(|value| value.i32()).collect())
}

/// `wasmer::MemoryView::data_size`: how many bytes the memory exported under
/// `name` holds, or `None` where the instance exports no memory of this store
/// under it (`wasmer::Exports::get_memory` and `wasmer::Memory::is_from_store`
/// decide that).
#[verifier::external_body]
pub(crate) fn memory_size(
    store: &wasmer::Store,
    instance: &wasmer::Instance,
    name: &str,
) -> (size: Option<u64>)
    ensures
        size is Some <==> memory_exports(*store, *instance).contains_key(name@),
        size matches Some(n) ==> n == memory_exports(*store, *instance)[name@].len(),
{
    match instance.exports.get_memory(name) {
        Ok(memory) if memory.is_from_store(store) => Some(memory.view(store).data_size()),
        _ => None,
    }
}

/// `wasmer::MemoryView::read`: the `len` bytes at `offset` of the memory
/// exported under `name`. The read fails exactly where that window leaves the
/// memory.
#[verifier::external_body]
pub(crate) fn memory_read(
    store: &wasmer::Store,
    instance: &wasmer::Instance,
    name: &str,
    offset: u64,
    len: usize,
) -> (r: Result<Vec<u8>, wasmer::MemoryAccessError>)
    requires
        memory_exports(*store, *instance).contains_key(name@),
    ensures
        r is Ok <==> window_fits(
            offset as int,
            len as int,
            memory_exports(*store, *instance)[name@].len() as int,
        ),
        r matches Ok(bytes) ==> bytes@ == window(
            memory_exports(*store, *instance)[name@],
            offset as int,
            len as int,
        ),
{
    let memory = instance.exports.get_memory(name).map_err(
        |_| wasmer::MemoryAccessError::HeapOutOfBounds,
    )?;
    let mut bytes = vec![0u8; len];
    memory.view(store).read(offset, &mut bytes)?;
    Ok(bytes)
}

/// `wasmer::MemoryView::write`: stores `data` at `offset` of the memory
/// exported under `name`. The write fails exactly where that window leaves the
/// memory, and then not a byte is written. Another name may export the same
/// memory, so only this name's bytes are spoken of.
#[verifier::external_body]
pub(crate) fn memory_write(
    store: &mut wasmer::Store,
    instance: &wasmer::Instance,
    name: &str,
    offset: u64,
    data: &[u8],
) -> (r: Result<(), wasmer::MemoryAccessError>)
    requires
        memory_exports(*old(store), *instance).contains_key(name@),
    ensures
        r is Ok <==> window_fits(
            offset as int,
            data@.len() as int,
            memory_exports(*old(store), *instance)[name@].len() as int,
        ),
        r is Ok ==> memory_exports(*final(store), *instance)[name@] == staged(
            memory_exports(*old(store), *instance)[name@],
            offset as int,
            data@,
        ),
        r is Err ==> memory_exports(*final(store), *instance) == memory_exports(
            *old(store),
            *instance,
        ),
        memory_exports(*final(store), *instance).dom() == memory_exports(
            *old(store),
            *instance,
        ).dom(),
        function_exports(*final(store), *instance) == function_exports(*old(store), *instance),
{
    let memory = instance.exports.get_memory(name).map_err(
        |_| wasmer::MemoryAccessError::HeapOutOfBounds,
    )?;
    memory.view(store).write(offset, data)
}

} // verus!
