use std::cell::Cell;

use ow_wasmtime::action::{ActionCapabilities, Artifact};
use ow_wasmtime::assets::FetchRequest;
use ow_wasmtime::error::{ErrorKind, RunError};
use ow_wasmtime::json::Json;
use ow_wasmtime::marshal::{decode_result, encode_input};
use ow_wasmtime::runtime::{Abi, Prepared, Wasmtime};

const ECHO: &str = r#"
(module
  (memory (export "memory") 2)
  (global $len (mut i32) (i32.const 0))
  (func (export "set_input") (param $size i32) (result i32)
    (global.set $len (local.get $size))
    (i32.const 1024))
  (func (export "_start"))
  (func (export "get_result_len") (result i32) (global.get $len))
  (func (export "get_result") (result i32) (i32.const 1024)))
"#;

const FIVE: &str = r#"
(module
  (memory (export "memory") 1)
  (data (i32.const 512) "5")
  (func (export "set_input") (param $size i32) (result i32) (i32.const 16))
  (func (export "_start"))
  (func (export "get_result_len") (result i32) (i32.const 1))
  (func (export "get_result") (result i32) (i32.const 512)))
"#;

const NEEDS_AN_UNKNOWN_IMPORT: &str = r#"
(module
  (import "host" "missing" (func))
  (memory (export "memory") 1)
  (func (export "_start")))
"#;

const NEEDS_WASI: &str = r#"
(module
  (import "wasi_snapshot_preview1" "fd_write" (func (param i32 i32 i32 i32) (result i32)))
  (import "wasi_snapshot_preview1" "args_sizes_get" (func (param i32 i32) (result i32)))
  (memory (export "memory") 1)
  (func (export "_start")))
"#;

const NEEDS_WASI_NN: &str = r#"
(module
  (import "wasi_ephemeral_nn" "compute" (func (param i32) (result i32)))
  (memory (export "memory") 1)
  (func (export "_start")))
"#;

const COMPONENT_NEEDS_WASI: &str = r#"
(component
  (import "wasi:random/random@0.2.12" (instance
    (export "get-random-u64" (func (result u64))))))
"#;

fn engine() -> wasmtime::Engine {
    let mut config = wasmtime::Config::new();
    config.memory_reservation(0);
    config.memory_reservation_for_growth(0);
    config.memory_guard_size(0);
    wasmtime::Engine::new(&config).expect("an engine")
}

fn load(engine: &wasmtime::Engine, bytes: &Vec<u8>) -> Option<Artifact> {
    wasmtime::Module::new(engine, bytes).ok().map(Artifact::Module)
}

fn no_fetch(_request: FetchRequest) -> Result<Vec<Vec<u8>>, RunError> {
    panic!("nothing was to be fetched")
}

fn json(text: &str) -> Json {
    decode_result(text.as_bytes().to_vec()).expect("a JSON document")
}

fn text(value: &Json) -> String {
    String::from_utf8(encode_input(value)).expect("UTF-8")
}

fn capabilities() -> ActionCapabilities {
    ActionCapabilities { dir: None }
}

#[test]
fn equal_bytes_are_prepared_once() {
    let mut runtime = Wasmtime::with_engine(engine(), Abi::Memory, 60);
    let loads = Cell::new(0);
    let counting = |engine: &wasmtime::Engine, bytes: &Vec<u8>| {
        loads.set(loads.get() + 1);
        load(engine, bytes)
    };
    let first = runtime.initialize("one".to_string(), capabilities(), ECHO.as_bytes().to_vec(), &counting);
    let second = runtime.initialize("two".to_string(), capabilities(), ECHO.as_bytes().to_vec(), &counting);
    assert!(matches!(first, Ok(Prepared::Fresh)));
    assert!(matches!(second, Ok(Prepared::Reused)));
    assert_eq!(loads.get(), 1);
    for id in ["one", "two"] {
        let result = runtime.run(id, json(r#"{"id":1}"#), &no_fetch).expect("a result");
        assert_eq!(text(&result), r#"{"id":1}"#);
    }
}

#[test]
fn other_bytes_are_prepared_anew() {
    let mut runtime = Wasmtime::with_engine(engine(), Abi::Memory, 60);
    let first = runtime.initialize("one".to_string(), capabilities(), ECHO.as_bytes().to_vec(), load);
    let second = runtime.initialize("two".to_string(), capabilities(), FIVE.as_bytes().to_vec(), load);
    assert!(matches!(first, Ok(Prepared::Fresh)));
    assert!(matches!(second, Ok(Prepared::Fresh)));
    assert_eq!(text(&runtime.run("one", json("[1]"), &no_fetch).expect("a result")), "[1]");
    assert_eq!(text(&runtime.run("two", json("[1]"), &no_fetch).expect("a result")), "5");
}

#[test]
fn the_content_key_is_the_metro_hash_of_the_bytes() {
    assert_eq!(Wasmtime::content_key(b"hello"), 6455825309044375053);
    assert_eq!(Wasmtime::content_key(b"helloworld"), 15512397028293617890);
    assert_eq!(Wasmtime::content_key(ECHO.as_bytes()), Wasmtime::content_key(ECHO.as_bytes()));
    assert_ne!(Wasmtime::content_key(ECHO.as_bytes()), Wasmtime::content_key(FIVE.as_bytes()));
}

#[test]
fn registering_again_overwrites_the_binding() {
    let mut runtime = Wasmtime::with_engine(engine(), Abi::Memory, 60);
    assert!(runtime.initialize("id".to_string(), capabilities(), ECHO.as_bytes().to_vec(), load).is_ok());
    assert_eq!(text(&runtime.run("id", json("[1]"), &no_fetch).expect("a result")), "[1]");
    assert!(runtime.initialize("id".to_string(), capabilities(), FIVE.as_bytes().to_vec(), load).is_ok());
    assert_eq!(text(&runtime.run("id", json("[1]"), &no_fetch).expect("a result")), "5");
}

#[test]
fn destroy_twice_is_destroy_once() {
    let mut runtime = Wasmtime::with_engine(engine(), Abi::Memory, 60);
    assert!(runtime.initialize("id".to_string(), capabilities(), ECHO.as_bytes().to_vec(), load).is_ok());
    assert!(runtime.initialize("other".to_string(), capabilities(), ECHO.as_bytes().to_vec(), load).is_ok());
    assert!(runtime.destroy("id"));
    assert!(!runtime.destroy("id"));
    let error = runtime.run("id", json("{}"), &no_fetch).expect_err("a destroyed id");
    assert_eq!(error.kind, ErrorKind::ContainerNotFound);
    assert_eq!(text(&runtime.run("other", json("[1]"), &no_fetch).expect("a result")), "[1]");
}

#[test]
fn destroy_of_an_unknown_id_succeeds_silently() {
    let mut runtime = Wasmtime::with_engine(engine(), Abi::Memory, 60);
    assert!(!runtime.destroy("never registered"));
}

#[test]
fn destroy_leaves_the_template_in_the_cache() {
    let mut runtime = Wasmtime::with_engine(engine(), Abi::Memory, 60);
    assert!(runtime.initialize("id".to_string(), capabilities(), ECHO.as_bytes().to_vec(), load).is_ok());
    assert!(runtime.destroy("id"));
    let again = runtime.initialize("id".to_string(), capabilities(), ECHO.as_bytes().to_vec(), load);
    assert!(matches!(again, Ok(Prepared::Reused)));
}

#[test]
fn bytes_that_do_not_load_are_a_deserialize_error() {
    let mut runtime = Wasmtime::with_engine(engine(), Abi::Memory, 60);
    let refused = runtime.initialize("id".to_string(), capabilities(), b"no module".to_vec(), load);
    let error = refused.expect_err("a refusal");
    assert_eq!(error.kind, ErrorKind::ModuleDeserializeError);
    assert_eq!(error.message, "Error deserializing module");
    assert_eq!(runtime.run("id", json("{}"), &no_fetch).expect_err("unknown").kind, ErrorKind::ContainerNotFound);
}

#[test]
fn an_import_that_the_host_lacks_is_a_linker_error() {
    let mut runtime = Wasmtime::with_engine(engine(), Abi::Memory, 60);
    let refused = runtime.initialize(
        "id".to_string(),
        capabilities(),
        NEEDS_AN_UNKNOWN_IMPORT.as_bytes().to_vec(),
        load,
    );
    assert_eq!(refused.expect_err("a refusal").kind, ErrorKind::LinkerError);
}

fn load_component(engine: &wasmtime::Engine, bytes: &Vec<u8>) -> Option<Artifact> {
    wasmtime::component::Component::new(engine, bytes).ok().map(Artifact::Component)
}

#[test]
fn every_convention_for_modules_installs_the_wasi_system_calls() {
    for abi in [Abi::Argv, Abi::Stdio, Abi::Memory, Abi::MemoryNn] {
        let mut runtime = Wasmtime::with_engine(engine(), abi, 60);
        let prepared =
            runtime.initialize("id".to_string(), capabilities(), NEEDS_WASI.as_bytes().to_vec(), load);
        assert!(matches!(prepared, Ok(Prepared::Fresh)));
    }
}

#[test]
fn only_the_convention_with_a_model_installs_the_neural_network_imports() {
    let mut runtime = Wasmtime::with_engine(engine(), Abi::MemoryNn, 60);
    let prepared =
        runtime.initialize("id".to_string(), capabilities(), NEEDS_WASI_NN.as_bytes().to_vec(), load);
    assert!(matches!(prepared, Ok(Prepared::Fresh)));
    for abi in [Abi::Argv, Abi::Stdio, Abi::Memory] {
        let mut runtime = Wasmtime::with_engine(engine(), abi, 60);
        let refused =
            runtime.initialize("id".to_string(), capabilities(), NEEDS_WASI_NN.as_bytes().to_vec(), load);
        assert_eq!(refused.expect_err("a refusal").kind, ErrorKind::LinkerError);
    }
}

#[test]
fn the_conventions_for_components_install_the_wasi_interfaces() {
    for abi in [Abi::Component, Abi::ComponentNn] {
        let mut runtime = Wasmtime::with_engine(engine(), abi, 60);
        let prepared = runtime.initialize(
            "id".to_string(),
            capabilities(),
            COMPONENT_NEEDS_WASI.as_bytes().to_vec(),
            load_component,
        );
        assert!(matches!(prepared, Ok(Prepared::Fresh)));
    }
}

#[test]
fn a_module_does_not_fit_the_component_convention() {
    let mut runtime = Wasmtime::with_engine(engine(), Abi::Component, 60);
    let refused = runtime.initialize("id".to_string(), capabilities(), ECHO.as_bytes().to_vec(), load);
    assert_eq!(refused.expect_err("a refusal").kind, ErrorKind::ModuleDeserializeError);
}

#[test]
fn the_template_of_a_registered_action_can_be_had() {
    let mut runtime = Wasmtime::with_engine(engine(), Abi::Memory, 60);
    assert!(runtime.initialize("id".to_string(), capabilities(), ECHO.as_bytes().to_vec(), load).is_ok());
    assert!(runtime.template("id").is_ok());
    match runtime.template("other") {
        Ok(_) => panic!("an unknown id has a template"),
        Err(error) => {
            assert_eq!(error.kind, ErrorKind::ContainerNotFound);
            assert_eq!(error.message, "No action named other");
        }
    }
}

#[test]
fn a_new_runtime_lets_entries_live_for_sixty_seconds() {
    assert_eq!(Wasmtime::new(Abi::Stdio).ttl_secs, 60);
    assert_eq!(Wasmtime::new(Abi::Stdio).abi, Abi::Stdio);
    assert_eq!(Wasmtime::default().abi, Abi::Memory);
    assert_eq!(Wasmtime::default().ttl_secs, 60);
}

#[test]
fn a_read_gives_an_entry_its_full_lifetime_again() {
    let mut runtime = Wasmtime::with_engine(engine(), Abi::Memory, 4);
    let bytes = || ECHO.as_bytes().to_vec();
    let started = std::time::Instant::now();
    let wait_until = |millis: u64| {
        while started.elapsed() < std::time::Duration::from_millis(millis) {
            std::hint::spin_loop();
        }
    };
    assert!(matches!(runtime.initialize("a".to_string(), capabilities(), bytes(), load), Ok(Prepared::Fresh)));
    wait_until(2000);
    assert!(matches!(runtime.initialize("b".to_string(), capabilities(), bytes(), load), Ok(Prepared::Reused)));
    wait_until(4500);
    assert!(matches!(runtime.initialize("c".to_string(), capabilities(), bytes(), load), Ok(Prepared::Reused)));
    wait_until(9500);
    assert!(matches!(runtime.initialize("d".to_string(), capabilities(), bytes(), load), Ok(Prepared::Fresh)));
}
