use ow_wasmtime::precompile::{
    precompile, precompile_wasmtime, precompiled_path, PrecompileError, Stage,
};

const MODULE: &str = r#"(module (memory (export "memory") 1) (func (export "_start")))"#;

#[test]
fn the_precompiled_path_names_source_and_runtime() {
    assert_eq!(precompiled_path("add.wasm", "wasmtime"), "add.wasm.wasmtime.precompiled");
    assert_eq!(precompiled_path("dir/a b.wasm", "wasmtime"), "dir/a b.wasm.wasmtime.precompiled");
    assert_eq!(precompiled_path("", ""), "..precompiled");
}

#[test]
fn precompile_pairs_the_bytes_with_the_path() {
    let artifact = precompile("actions/add.wasm", |name: &str| Ok(name.as_bytes().to_vec()), "wasmtime")
        .ok()
        .expect("an artifact");
    assert_eq!(artifact.path, "actions/add.wasm.wasmtime.precompiled");
    assert_eq!(artifact.bytes, b"actions/add.wasm".to_vec());
}

#[test]
fn precompile_hands_on_the_failure() {
    let failing = |_name: &str| Err(PrecompileError { stage: Stage::File, message: "no such file".to_string() });
    let error = precompile("missing.wasm", failing, "wasmtime").err().expect("a failure");
    assert_eq!(error.stage, Stage::File);
    assert_eq!(error.message, "no such file");
}

#[test]
fn a_module_is_compiled_and_serialized() {
    let bytes = precompile_wasmtime(MODULE.as_bytes()).ok().expect("a serialized module");
    assert!(!bytes.is_empty());
    assert_ne!(bytes, MODULE.as_bytes().to_vec());
}

#[test]
fn a_source_that_is_no_module_fails_to_compile() {
    let error = precompile_wasmtime(b"\0asm but not really").err().expect("a failure");
    assert_eq!(error.stage, Stage::Compile);
    assert!(!error.message.is_empty());
}
