//! Import assembly: the set of host functions that a module is instantiated
//! against.
//!
//! The set is the union of two contributions: the system interface, which one
//! provider builds whole, and the network extension, which another provider
//! hands over as the contents of one namespace. Neither provider is part of
//! this library; what is done here is the joining.

use crate::guest::{export_names, import_names, namespaced, register_namespace};
use vstd::prelude::*;

verus! {

/// Joins the network extension to the system interface: every export of
/// `network` becomes an import under `namespace`, next to the imports that
/// `wasi` already holds. An import of `wasi` with the same namespace and name
/// gives way. Whether the result covers what a module requires shows only when
/// the module is instantiated.
pub fn init_wasi_dev_imports(
    wasi: wasmer::Imports,
    namespace: &str,
    network: wasmer::Exports,
) -> (imports: wasmer::Imports)
    ensures
        import_names(imports) == import_names(wasi).union(
            namespaced(namespace@, export_names(network)),
        ),
{
    let mut import_object = wasi;
    register_namespace(&mut import_object, namespace, network);
    import_object
}

/// The joined set holds every import of the system interface and every export
/// of the network extension under its namespace, and nothing else.
pub proof fn lemma_joined_imports(
    wasi: Set<(Seq<char>, Seq<char>)>,
    namespace: Seq<char>,
    network: Set<Seq<char>>,
    import: (Seq<char>, Seq<char>),
)
    ensures
        wasi.union(namespaced(namespace, network)).contains(import) <==> wasi.contains(import) || (
        import.0 == namespace && network.contains(import.1)),
{
}

} // verus!
