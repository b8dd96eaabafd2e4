use wasmer::sys::{BaseTunables, NativeEngineExt};
use wasmer::{Engine, Exports, Function, Imports, Module, Pages, Store};
use wasmer_host::host::{Artifact, WasmerHost};
use wasmer_host::imports::init_wasi_dev_imports;
use wasmer_host::request::EngineHandle;
use wasmer_host::HostError;

const NETWORK: &str = "wasi_experimental_network_unstable";

const GUEST: &str = r#"(module
    (import "wasi_snapshot_preview1" "sched_yield" (func $yield (result i32)))
    (import "wasi_experimental_network_unstable" "socket_create" (func $socket (result i32)))
    (func (export "new_runtime") (result i32) (call $yield))
    (func (export "new_async_runtime") (result i32) (call $socket))
    (func (export "parameter_buffer_ptr") (result i32) (i32.const 0)))"#;

fn small_store() -> Store {
    let mut engine = Engine::default();
    engine.set_tunables(BaseTunables {
        static_memory_bound: Pages(16),
        static_memory_offset_guard_size: 0x1_0000,
        dynamic_memory_offset_guard_size: 0x1_0000,
    });
    Store::new(engine)
}

fn system_interface(store: &mut Store) -> Imports {
    let mut wasi = Imports::new();
    wasi.define("wasi_snapshot_preview1", "sched_yield", Function::new_typed(store, || 21i32));
    wasi
}

fn network(store: &mut Store) -> Exports {
    let mut exports = Exports::new();
    exports.insert("socket_create", Function::new_typed(store, || 34i32));
    exports
}

#[test]
fn the_joined_imports_hold_both_contributions() {
    let mut store = small_store();
    let wasi = system_interface(&mut store);
    let extension = network(&mut store);
    let imports = init_wasi_dev_imports(wasi, NETWORK, extension);
    assert!(imports.exists("wasi_snapshot_preview1", "sched_yield"));
    assert!(imports.exists(NETWORK, "socket_create"));
    assert!(imports.contains_namespace(NETWORK));
    assert!(!imports.exists(NETWORK, "sched_yield"));
    assert!(!imports.exists("wasi_snapshot_preview1", "socket_create"));
    assert_eq!(imports.iter().count(), 2);
}

#[test]
fn an_empty_extension_adds_nothing() {
    let mut store = small_store();
    let wasi = system_interface(&mut store);
    let imports = init_wasi_dev_imports(wasi, NETWORK, Exports::new());
    assert!(imports.exists("wasi_snapshot_preview1", "sched_yield"));
    assert!(!imports.contains_namespace(NETWORK));
    assert_eq!(imports.iter().count(), 1);
}

#[test]
fn an_extension_in_the_namespace_of_the_system_interface_takes_its_place() {
    let mut store = small_store();
    let wasi = system_interface(&mut store);
    let mut extension = Exports::new();
    extension.insert("sched_yield", Function::new_typed(&mut store, || 55i32));
    extension.insert("socket_create", Function::new_typed(&mut store, || 34i32));
    let imports = init_wasi_dev_imports(wasi, "wasi_snapshot_preview1", extension);
    assert_eq!(imports.iter().count(), 2);
    let module = Module::new(
        &store,
        r#"(module
            (import "wasi_snapshot_preview1" "sched_yield" (func $yield (result i32)))
            (func (export "new_runtime") (result i32) (call $yield))
            (func (export "new_async_runtime") (result i32) (i32.const 0))
            (func (export "parameter_buffer_ptr") (result i32) (i32.const 0)))"#,
    )
    .expect("the guest is well formed");
    let host = WasmerHost::new_wasi_dev(Some(Artifact { store, module, imports }));
    assert_eq!(host.map(|h| h.script_engine()), Ok(EngineHandle(55)));
}

#[test]
fn a_module_is_instantiated_against_the_joined_imports() {
    let mut store = small_store();
    let wasi = system_interface(&mut store);
    let extension = network(&mut store);
    let imports = init_wasi_dev_imports(wasi, NETWORK, extension);
    let module = Module::new(&store, GUEST).expect("the guest is well formed");
    let host = match WasmerHost::new_wasi_dev(Some(Artifact { store, module, imports })) {
        Ok(host) => host,
        Err(e) => panic!("bootstrap failed: {:?}", e),
    };
    assert_eq!(host.script_engine(), EngineHandle(21));
    assert_eq!(host.async_engine(), EngineHandle(34));
}

#[test]
fn a_module_that_needs_more_than_the_joined_imports_is_not_instantiated() {
    let mut store = small_store();
    let wasi = system_interface(&mut store);
    let imports = init_wasi_dev_imports(wasi, NETWORK, Exports::new());
    let module = Module::new(&store, GUEST).expect("the guest is well formed");
    let host = WasmerHost::new_wasi_dev(Some(Artifact { store, module, imports }));
    assert!(matches!(host, Err(HostError::InstantiationFailed)));
}
