use ow_wasmtime::action::{ActionCapabilities, Artifact};
use ow_wasmtime::assets::FetchRequest;
use ow_wasmtime::error::{ErrorKind, RunError};
use ow_wasmtime::json::Json;
use ow_wasmtime::marshal::{decode_result, encode_input};
use ow_wasmtime::runtime::{Abi, Prepared, Wasmtime};

const ECHO: &str = r#"
(module
  (memory (export "memory") 2)
  (global $len (mut i32) (i32.const 0))
  (func (export "set_input") (param $size i32) (result i32)
    (global.set $len (local.get $size))
    (i32.const 1024))
  (func (export "_start"))
  (func (export "get_result_len") (result i32) (global.get $len))
  (func (export "get_result") (result i32) (i32.const 1024)))
"#;

const TRAPS_ON_ARRAYS: &str = r#"
(module
  (memory (export "memory") 2)
  (global $len (mut i32) (i32.const 0))
  (func (export "set_input") (param $size i32) (result i32)
    (global.set $len (local.get $size))
    (i32.const 1024))
  (func (export "_start")
    (if (i32.eq (i32.load8_u (i32.const 1024)) (i32.const 91)) (then unreachable)))
  (func (export "get_result_len") (result i32) (global.get $len))
  (func (export "get_result") (result i32) (i32.const 1024)))
"#;

const NO_MEMORY: &str = r#"
(module
  (func (export "set_input") (param $size i32) (result i32) (i32.const 0))
  (func (export "_start"))
  (func (export "get_result_len") (result i32) (i32.const 0))
  (func (export "get_result") (result i32) (i32.const 0)))
"#;

const NO_SET_INPUT: &str = r#"
(module
  (memory (export "memory") 1)
  (func (export "_start"))
  (func (export "get_result_len") (result i32) (i32.const 0))
  (func (export "get_result") (result i32) (i32.const 0)))
"#;

const NO_START: &str = r#"
(module
  (memory (export "memory") 1)
  (func (export "set_input") (param $size i32) (result i32) (i32.const 16))
  (func (export "get_result_len") (result i32) (i32.const 0))
  (func (export "get_result") (result i32) (i32.const 0)))
"#;

const NO_GET_RESULT: &str = r#"
(module
  (memory (export "memory") 1)
  (func (export "set_input") (param $size i32) (result i32) (i32.const 16))
  (func (export "_start"))
  (func (export "get_result_len") (result i32) (i32.const 0)))
"#;

const NO_GET_RESULT_LEN: &str = r#"
(module
  (memory (export "memory") 1)
  (func (export "set_input") (param $size i32) (result i32) (i32.const 16))
  (func (export "_start"))
  (func (export "get_result") (result i32) (i32.const 0)))
"#;

const SLOT_OUTSIDE_MEMORY: &str = r#"
(module
  (memory (export "memory") 1)
  (func (export "set_input") (param $size i32) (result i32) (i32.const 65530))
  (func (export "_start"))
  (func (export "get_result_len") (result i32) (i32.const 0))
  (func (export "get_result") (result i32) (i32.const 0)))
"#;

const RESULT_OUTSIDE_MEMORY: &str = r#"
(module
  (memory (export "memory") 1)
  (func (export "set_input") (param $size i32) (result i32) (i32.const 16))
  (func (export "_start"))
  (func (export "get_result_len") (result i32) (i32.const 10))
  (func (export "get_result") (result i32) (i32.const 65530)))
"#;

const RESULT_IS_NO_UTF8: &str = r#"
(module
  (memory (export "memory") 1)
  (data (i32.const 512) "\ff\fe")
  (func (export "set_input") (param $size i32) (result i32) (i32.const 16))
  (func (export "_start"))
  (func (export "get_result_len") (result i32) (i32.const 2))
  (func (export "get_result") (result i32) (i32.const 512)))
"#;

const RESULT_IS_NO_JSON: &str = r#"
(module
  (memory (export "memory") 1)
  (data (i32.const 512) "{oops")
  (func (export "set_input") (param $size i32) (result i32) (i32.const 16))
  (func (export "_start"))
  (func (export "get_result_len") (result i32) (i32.const 5))
  (func (export "get_result") (result i32) (i32.const 512)))
"#;

const CONSTANT_RESULT: &str = r#"
(module
  (memory (export "memory") 1)
  (data (i32.const 512) "{\"sum\":5}")
  (func (export "set_input") (param $size i32) (result i32) (i32.const 16))
  (func (export "_start"))
  (func (export "get_result_len") (result i32) (i32.const 9))
  (func (export "get_result") (result i32) (i32.const 512)))
"#;

fn engine() -> wasmtime::Engine {
    let mut config = wasmtime::Config::new();
    config.memory_reservation(0);
    config.memory_reservation_for_growth(0);
    config.memory_guard_size(0);
    wasmtime::Engine::new(&config).expect("an engine")
}

fn load(engine: &wasmtime::Engine, bytes: &Vec<u8>) -> Option<Artifact> {
    wasmtime::Module::new(engine, bytes).ok().map(Artifact::Module)
}

fn no_fetch(_request: FetchRequest) -> Result<Vec<Vec<u8>>, RunError> {
    panic!("nothing was to be fetched")
}

fn json(text: &str) -> Json {
    decode_result(text.as_bytes().to_vec()).expect("a JSON document")
}

fn text(value: &Json) -> String {
    String::from_utf8(encode_input(value)).expect("UTF-8")
}

fn runtime_with(guest: &str) -> Wasmtime {
    let mut runtime = Wasmtime::with_engine(engine(), Abi::Memory, 60);
    let prepared = runtime.initialize(
        "action".to_string(),
        ActionCapabilities { dir: None },
        guest.as_bytes().to_vec(),
        load,
    );
    assert!(matches!(prepared, Ok(Prepared::Fresh)));
    runtime
}

fn failure_of(guest: &str, request: &str) -> RunError {
    runtime_with(guest).run("action", json(request), &no_fetch).expect_err("a failure")
}

#[test]
fn linear_memory_echo_returns_the_request() {
    let runtime = runtime_with(ECHO);
    let result = runtime.run("action", json(r#"{"k":"v","n":7}"#), &no_fetch).expect("a result");
    assert_eq!(text(&result), r#"{"k":"v","n":7}"#);
}

#[test]
fn an_identity_action_hands_back_every_kind_of_value() {
    let runtime = runtime_with(ECHO);
    for request in [
        "null",
        "true",
        "0",
        "-17",
        r#""text with \"quotes\" and \\ and ü""#,
        "[]",
        "{}",
        r#"[1,[2,[3,{"deep":[null,false]}]]]"#,
        r#"{"class_labels":["cat","dog"],"image_names":["a.png"],"top_k":5}"#,
    ] {
        let result = runtime.run("action", json(request), &no_fetch).expect("a result");
        assert_eq!(text(&result), request);
    }
}

#[test]
fn a_large_request_passes_through_memory() {
    let runtime = runtime_with(ECHO);
    let payload = "x".repeat(100_000);
    let request = format!(r#"{{"image":"{payload}"}}"#);
    let result = runtime.run("action", json(&request), &no_fetch).expect("a result");
    assert_eq!(text(&result), request);
}

#[test]
fn the_result_is_what_the_guest_reveals() {
    let runtime = runtime_with(CONSTANT_RESULT);
    let result = runtime.run("action", json(r#"{"param1":2,"param2":3}"#), &no_fetch);
    assert_eq!(text(&result.expect("a result")), r#"{"sum":5}"#);
}

#[test]
fn run_on_unknown_id_is_container_not_found() {
    let mut runtime = Wasmtime::with_engine(engine(), Abi::Memory, 60);
    let error = runtime.run("nope", json("{}"), &no_fetch).expect_err("an unknown id");
    assert_eq!(error.kind, ErrorKind::ContainerNotFound);
    assert_eq!(error.message, "No action named nope");
    assert_eq!(text(&error.envelope()), r#"{"error":"ContainerNotFound: No action named nope"}"#);
}

#[test]
fn a_trap_fails_the_run_and_spares_the_template() {
    let runtime = runtime_with(TRAPS_ON_ARRAYS);
    let error = runtime.run("action", json("[1]"), &no_fetch).expect_err("a trap");
    assert_eq!(error.kind, ErrorKind::GuestTrap);
    let result = runtime.run("action", json(r#"{"ok":true}"#), &no_fetch).expect("a result");
    assert_eq!(text(&result), r#"{"ok":true}"#);
    let error = runtime.run("action", json("[2]"), &no_fetch).expect_err("a trap");
    assert_eq!(error.kind, ErrorKind::GuestTrap);
}

#[test]
fn a_guest_without_memory_lacks_an_export() {
    let error = failure_of(NO_MEMORY, "{}");
    assert_eq!(error.kind, ErrorKind::MissingExport);
    assert_eq!(error.message, "Failed to get WASM memory");
}

#[test]
fn a_guest_without_set_input_lacks_an_export() {
    let error = failure_of(NO_SET_INPUT, "{}");
    assert_eq!(error.kind, ErrorKind::MissingExport);
    assert_eq!(error.message, "Failed to get set_input");
}

#[test]
fn a_guest_without_start_lacks_an_export() {
    let error = failure_of(NO_START, "{}");
    assert_eq!(error.kind, ErrorKind::MissingExport);
    assert_eq!(error.message, "Failed to get _start");
}

#[test]
fn a_guest_without_get_result_lacks_an_export() {
    let error = failure_of(NO_GET_RESULT, "{}");
    assert_eq!(error.kind, ErrorKind::MissingExport);
    assert_eq!(error.message, "Failed to get get_result");
}

#[test]
fn a_guest_without_get_result_len_lacks_an_export() {
    let error = failure_of(NO_GET_RESULT_LEN, "{}");
    assert_eq!(error.kind, ErrorKind::MissingExport);
    assert_eq!(error.message, "Failed to get get_result_len");
}

#[test]
fn an_input_slot_outside_memory_is_a_marshalling_error() {
    assert_eq!(failure_of(SLOT_OUTSIDE_MEMORY, r#"{"long":"enough"}"#).kind, ErrorKind::MarshalError);
}

#[test]
fn a_result_outside_memory_is_a_marshalling_error() {
    assert_eq!(failure_of(RESULT_OUTSIDE_MEMORY, "{}").kind, ErrorKind::MarshalError);
}

#[test]
fn a_result_that_is_no_utf8_is_a_marshalling_error() {
    assert_eq!(failure_of(RESULT_IS_NO_UTF8, "{}").kind, ErrorKind::MarshalError);
}

#[test]
fn a_result_that_is_no_json_is_a_marshalling_error() {
    assert_eq!(failure_of(RESULT_IS_NO_JSON, "{}").kind, ErrorKind::MarshalError);
}

#[test]
fn concurrent_looking_runs_do_not_share_guest_state() {
    let runtime = runtime_with(ECHO);
    let first = runtime.run("action", json(r#"{"a":1}"#), &no_fetch).expect("a result");
    let second = runtime.run("action", json(r#"{"b":2}"#), &no_fetch).expect("a result");
    assert_eq!(text(&first), r#"{"a":1}"#);
    assert_eq!(text(&second), r#"{"b":2}"#);
}

const NO_GET_RESULT_AND_A_TRAP: &str = r#"
(module
  (memory (export "memory") 2)
  (func (export "set_input") (param $size i32) (result i32) (i32.const 1024))
  (func (export "_start") unreachable)
  (func (export "get_result_len") (result i32) (i32.const 0)))
"#;

#[test]
fn a_missing_export_is_found_before_the_guest_is_entered() {
    let error = failure_of(NO_GET_RESULT_AND_A_TRAP, "{}");
    assert_eq!(error.kind, ErrorKind::MissingExport);
    assert_eq!(error.message, "Failed to get get_result");
}

#[test]
fn a_run_does_not_depend_on_the_engine_that_the_runtime_holds() {
    let mut runtime = runtime_with(ECHO);
    runtime.engine = engine();
    let result = runtime.run("action", json(r#"{"k":"v"}"#), &no_fetch).expect("a result");
    assert_eq!(text(&result), r#"{"k":"v"}"#);
}
