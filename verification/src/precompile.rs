//! The offline precompiler: a Wasm source is compiled by a fresh engine,
//! the compiled module is serialized, and the bytes are to be written beside
//! the source under a name that tells the runtime they are for.

use vstd::prelude::*;
use vstd::string::*;
use crate::engine::{error_text, new_engine};

verus! {

/// The step of precompiling that failed.
#[derive(Clone, Copy, Debug, PartialEq, Eq, Structural)]
pub enum Stage {
    /// The engine did not accept the source as a module.
    Compile,
    /// The engine could not serialize the compiled module.
    Serialize,
    /// The source could not be read, or the output could not be written.
    File,
}

/// A failure of the precompiler: the step and the engine's words.
pub struct PrecompileError {
    pub stage: Stage,
    pub message: String,
}

/// A precompiled artifact: the path it is to be written to and its bytes.
pub struct Precompiled {
    pub path: String,
    pub bytes: Vec<u8>,
}

/// Whether an engine accepts a source as a module: whether `Module::new`
/// compiles it.
pub uninterp spec fn compiles(engine: wasmtime::Engine, source: Seq<u8>) -> bool;

/// The engine's serialized form of a compiled module, as `Module::serialize`
/// gives it, or `None` where the engine cannot serialize the module.
pub uninterp spec fn serialized_form(module: wasmtime::Module) -> Option<Seq<u8>>;

/// Calls `Module::new`, which compiles a module from its binary or text
/// form, and answers with the module exactly where the engine accepts the
/// source.
#[verifier::external_body]
pub(crate) fn compile_module(engine: &wasmtime::Engine, source: &[u8]) -> (outcome: Result<
    wasmtime::Module,
    wasmtime::Error,
>)
    ensures
        outcome is Ok <==> compiles(*engine, source@),
{
    wasmtime::Module::new(engine, source)
}

/// Calls `Module::serialize`, which gives the engine's own serialized form
/// of the compiled module.
#[verifier::external_body]
pub(crate) fn serialize_module(module: &wasmtime::Module) -> (outcome: Result<
    Vec<u8>,
    wasmtime::Error,
>)
    ensures
        match outcome {
            Ok(bytes) => serialized_form(*module) == Some(bytes@),
            Err(_) => serialized_form(*module) is None,
        },
{
    module.serialize()
}

/// What holds when a source was precompiled. The bytes are the serialized
/// form of a module that an engine compiled from the source. A failure names
/// the step that failed: at `Compile` an engine did not accept the source,
/// at `Serialize` it accepted the source and could not serialize the
/// compiled module.
pub open spec fn precompiled(source: Seq<u8>, outcome: Result<Vec<u8>, PrecompileError>) -> bool {
    match outcome {
        Ok(bytes) => exists|engine: wasmtime::Engine, module: wasmtime::Module|
            #![trigger compiles(engine, source), serialized_form(module)]
            compiles(engine, source) && serialized_form(module) == Some(bytes@),
        Err(error) => match error.stage {
            Stage::Compile => exists|engine: wasmtime::Engine|
                #![trigger compiles(engine, source)]
                !compiles(engine, source),
            Stage::Serialize => exists|engine: wasmtime::Engine, module: wasmtime::Module|
                #![trigger compiles(engine, source), serialized_form(module)]
                compiles(engine, source) && serialized_form(module) is None,
            Stage::File => false,
        },
    }
}

/// Compiles a Wasm source with a fresh engine and serializes the compiled
/// module. The engine decides the outcome; a failure names the step that
/// the engine refused.
pub fn precompile_wasmtime(source: &[u8]) -> (outcome: Result<Vec<u8>, PrecompileError>)
    ensures
        precompiled(source@, outcome),
{
    let engine = new_engine();
    let module = match compile_module(&engine, source) {
        Err(error) => {
            assert(!compiles(engine, source@));
            return Err(PrecompileError { stage: Stage::Compile, message: error_text(&error) });
        },
        Ok(module) => module,
    };
    match serialize_module(&module) {
        Err(error) => {
            assert(compiles(engine, source@) && serialized_form(module) is None);
            Err(PrecompileError { stage: Stage::Serialize, message: error_text(&error) })
        },
        Ok(bytes) => {
            assert(compiles(engine, source@) && serialized_form(module) == Some(bytes@));
            Ok(bytes)
        },
    }
}

/// The path of the precompiled form of a source for a runtime: the source's
/// path, a dot, the runtime's name, and `.precompiled`.
pub open spec fn spec_precompiled_path(filename: Seq<char>, runtime_name: Seq<char>) -> Seq<char> {
    filename + "."@ + runtime_name + ".precompiled"@
}

/// The path of the precompiled form of a source for a runtime.
pub fn precompiled_path(filename: &str, runtime_name: &str) -> (path: String)
    ensures
        path@ == spec_precompiled_path(filename@, runtime_name@),
{
    let mut path: String = filename.to_owned();
    path.append(".");
    path.append(runtime_name);
    path.append(".precompiled");
    path
}

/// Precompiles one source: `precompile_fn` is asked for the precompiled
/// bytes of `filename`, and they come back with the path that they are to be
/// written to. A failure of `precompile_fn` is handed on as it is.
pub fn precompile<F>(filename: &str, precompile_fn: F, runtime_name: &str) -> (outcome: Result<
    Precompiled,
    PrecompileError,
>) where F: FnOnce(&str) -> Result<Vec<u8>, PrecompileError>
    requires
        precompile_fn.requires((filename,)),
    ensures
        match outcome {
            Ok(artifact) => precompile_fn.ensures((filename,), Ok(artifact.bytes))
                && artifact.path@ == spec_precompiled_path(filename@, runtime_name@),
            Err(error) => precompile_fn.ensures((filename,), Err(error)),
        },
{
    match precompile_fn(filename) {
        Err(error) => Err(error),
        Ok(bytes) => Ok(Precompiled { path: precompiled_path(filename, runtime_name), bytes }),
    }
}

} // verus!
