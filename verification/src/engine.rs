//! The Wasm engine as the executor uses it: the engine's types, the state
//! that every store carries, and one small trusted function for each call
//! into `wasmtime`, `wasmtime_wasi` and `wasmtime_wasi_nn`.

use vstd::prelude::*;

verus! {

/// `wasmtime::Engine`, opaque here: the library carries it and never looks inside.
#[verifier::external_type_specification]
#[verifier::external_body]
pub struct ExEngine(wasmtime::Engine);

/// `wasmtime::Module`, opaque here: the library carries it and never looks inside.
#[verifier::external_type_specification]
#[verifier::external_body]
pub struct ExModule(wasmtime::Module);

/// `wasmtime::Instance`, opaque here: the library carries it and never looks inside.
#[verifier::external_type_specification]
#[verifier::external_body]
pub struct ExInstance(wasmtime::Instance);

/// `wasmtime::Error`, opaque here: the library carries it and never looks inside.
#[verifier::external_type_specification]
#[verifier::external_body]
pub struct ExEngineError(wasmtime::Error);

/// `wasmtime::Store`, opaque here: the library carries it and never looks inside.
#[verifier::external_type_specification]
#[verifier::external_body]
#[verifier::reject_recursive_types(T)]
pub struct ExStore<T: 'static>(wasmtime::Store<T>);

/// `wasmtime::Linker`, opaque here: the library carries it and never looks inside.
#[verifier::external_type_specification]
#[verifier::external_body]
#[verifier::reject_recursive_types(T)]
pub struct ExLinker<T>(wasmtime::Linker<T>);

/// `wasmtime::InstancePre`, opaque here: the library carries it and never looks inside.
#[verifier::external_type_specification]
#[verifier::external_body]
#[verifier::reject_recursive_types(T)]
pub struct ExInstancePre<T>(wasmtime::InstancePre<T>);

/// `wasmtime_wasi::p1::WasiP1Ctx`, opaque here: the library carries it and never looks inside.
#[verifier::external_type_specification]
#[verifier::external_body]
pub struct ExWasiP1Ctx(wasmtime_wasi::p1::WasiP1Ctx);

/// `wasmtime_wasi_nn::witx::WasiNnCtx`, opaque here: the library carries it and never looks inside.
#[verifier::external_type_specification]
#[verifier::external_body]
pub struct ExWasiNnCtx(wasmtime_wasi_nn::witx::WasiNnCtx);

/// `wasmtime_wasi::p2::pipe::MemoryOutputPipe`, opaque here: the library carries it and never looks
/// inside.
#[verifier::external_type_specification]
#[verifier::external_body]
pub struct ExMemoryOutputPipe(wasmtime_wasi::p2::pipe::MemoryOutputPipe);

/// `wasmtime::component::Instance`, opaque here: the library carries it and never looks inside.
#[verifier::external_type_specification]
#[verifier::external_body]
pub struct ExComponentInstance(wasmtime::component::Instance);

/// `wasmtime::component::Linker`, opaque here: the library carries it and never looks inside.
#[verifier::external_type_specification]
#[verifier::external_body]
#[verifier::reject_recursive_types(T)]
pub struct ExComponentLinker<T: 'static>(wasmtime::component::Linker<T>);

/// `wasmtime_wasi::WasiCtx`, opaque here: the library carries it and never
/// looks inside.
#[verifier::external_type_specification]
#[verifier::external_body]
pub struct ExWasiCtx(wasmtime_wasi::WasiCtx);

/// `wasmtime_wasi::WasiCtxView`, opaque here: the library carries it and
/// never looks inside.
#[verifier::external_type_specification]
#[verifier::external_body]
pub struct ExWasiCtxView<'a>(wasmtime_wasi::WasiCtxView<'a>);

/// `wasmtime::component::ResourceTable`, opaque here: the library carries it
/// and never looks inside.
#[verifier::external_type_specification]
#[verifier::external_body]
pub struct ExResourceTable(wasmtime::component::ResourceTable);

/// `wasmtime_wasi_nn::wit::WasiNnCtx`, opaque here: the library carries it
/// and never looks inside.
#[verifier::external_type_specification]
#[verifier::external_body]
pub struct ExComponentWasiNnCtx(wasmtime_wasi_nn::wit::WasiNnCtx);

/// The state that a store carries through one invocation: the WASI context
/// and the context of the neural-network imports.
pub struct WasmCtx {
    wasi: wasmtime_wasi::p1::WasiP1Ctx,
    wasi_nn: wasmtime_wasi_nn::witx::WasiNnCtx,
}

impl WasmCtx {
    /// The WASI context of the state.
    pub closed spec fn spec_wasi(self) -> wasmtime_wasi::p1::WasiP1Ctx {
        self.wasi
    }

    /// The neural-network context of the state.
    pub closed spec fn spec_wasi_nn(self) -> wasmtime_wasi_nn::witx::WasiNnCtx {
        self.wasi_nn
    }

    /// The WASI context, for the host functions to work on. Nothing else of
    /// the state changes through the reference.
    pub fn wasi(&mut self) -> (ctx: &mut wasmtime_wasi::p1::WasiP1Ctx)
        ensures
            *ctx == old(self).spec_wasi(),
            final(self).spec_wasi() == *final(ctx),
            final(self).spec_wasi_nn() == old(self).spec_wasi_nn(),
    {
        &mut self.wasi
    }

    /// The neural-network context, for the host functions to work on.
    /// Nothing else of the state changes through the reference.
    pub fn wasi_nn(&mut self) -> (ctx: &mut wasmtime_wasi_nn::witx::WasiNnCtx)
        ensures
            *ctx == old(self).spec_wasi_nn(),
            final(self).spec_wasi_nn() == *final(ctx),
            final(self).spec_wasi() == old(self).spec_wasi(),
    {
        &mut self.wasi_nn
    }
}

/// A live guest: a store and the instance that was created in it.
pub struct Guest {
    store: wasmtime::Store<WasmCtx>,
    instance: wasmtime::Instance,
}

/// The bytes of the linear memory that the guest exports under `name`, or
/// `None` where it exports no memory under that name.
pub uninterp spec fn exported_memory(guest: Guest, name: Seq<char>) -> Option<Seq<u8>>;

/// Calls `Engine::default`.
#[verifier::external_body]
pub(crate) fn new_engine() -> wasmtime::Engine {
    wasmtime::Engine::default()
}

/// A set of host imports that a linker can hold.
#[derive(Clone, Copy, Debug, PartialEq, Eq, Structural)]
pub enum ImportSet {
    /// The WASI system calls.
    Wasi,
    /// The neural-network imports.
    WasiNn,
}

/// The sets of host imports that a linker for core modules defines in full.
pub uninterp spec fn linked_imports(linker: wasmtime::Linker<WasmCtx>) -> Set<ImportSet>;

/// The sets of host imports that a linker for components defines in full.
pub uninterp spec fn linked_interfaces(linker: wasmtime::component::Linker<MyState>) -> Set<
    ImportSet,
>;

/// Whether a linker for core modules takes the definitions of a set of host
/// imports: whether none of them clashes with what the linker defines.
pub uninterp spec fn accepts(linker: wasmtime::Linker<WasmCtx>, imports: ImportSet) -> bool;

/// Whether a linker for components takes the definitions of a set of host
/// interfaces: whether none of them clashes with what the linker defines.
pub uninterp spec fn accepts_interfaces(
    linker: wasmtime::component::Linker<MyState>,
    imports: ImportSet,
) -> bool;

/// Whether a linker resolves a module: whether both are of one engine and
/// the linker defines every import of the module with the type that the
/// module asks for.
pub uninterp spec fn resolves(linker: wasmtime::Linker<WasmCtx>, module: wasmtime::Module) -> bool;

/// Whether a linker resolves a component: whether both are of one engine
/// and the linker defines every import of the component with the type that
/// the component asks for.
pub uninterp spec fn resolves_component(
    linker: wasmtime::component::Linker<MyState>,
    component: wasmtime::component::Component,
) -> bool;

/// Whether a store was made on the engine of a template, so that the
/// template can be instantiated in it.
pub uninterp spec fn made_for(
    store: wasmtime::Store<WasmCtx>,
    template: wasmtime::InstancePre<WasmCtx>,
) -> bool;

/// The names under which the module of a template exports anything.
pub uninterp spec fn declared_exports(template: wasmtime::InstancePre<WasmCtx>) -> Set<Seq<char>>;

/// The names under which a guest exports anything; they are those of its
/// module, and nothing that the guest does changes them.
pub uninterp spec fn exported_names(guest: Guest) -> Set<Seq<char>>;

/// The names under which the component of a template exports anything.
pub uninterp spec fn declared_component_exports(
    template: wasmtime::component::InstancePre<MyState>,
) -> Set<Seq<char>>;

/// The names under which a guest that is a component exports anything.
pub uninterp spec fn component_exported_names(guest: ComponentGuest) -> Set<Seq<char>>;

/// Calls `InstancePre::module` and `Module::get_export`: whether the module
/// of the template exports anything under the name.
#[verifier::external_body]
pub(crate) fn declares(template: &wasmtime::InstancePre<WasmCtx>, name: &str) -> (found: bool)
    ensures
        found == declared_exports(*template).contains(name@),
{
    template.module().get_export(name).is_some()
}

/// Calls `component::InstancePre::component` and
/// `Component::get_export_index`: whether the component of the template
/// exports anything under the name.
#[verifier::external_body]
pub(crate) fn component_declares(
    template: &wasmtime::component::InstancePre<MyState>,
    name: &str,
) -> (found: bool)
    ensures
        found == declared_component_exports(*template).contains(name@),
{
    template.component().get_export_index(None, name).is_some()
}

/// Calls `Linker::new` for the engine: a linker that defines nothing.
#[verifier::external_body]
pub(crate) fn new_linker(engine: &wasmtime::Engine) -> (linker: wasmtime::Linker<WasmCtx>)
    ensures
        linked_imports(linker) == Set::<ImportSet>::empty(),
{
    wasmtime::Linker::new(engine)
}

/// Calls `wasmtime_wasi::p1::add_to_linker_sync`, which defines the WASI
/// system calls in the linker, one after the other, and stops at the first
/// that the linker refuses, which it does for a name that it defines
/// already. Where it succeeds the linker defines them all, beside what it
/// defined; where it fails the linker has lost nothing, and has gained at
/// most these.
#[verifier::external_body]
pub(crate) fn link_wasi(linker: &mut wasmtime::Linker<WasmCtx>) -> (outcome: Result<
    (),
    wasmtime::Error,
>)
    ensures
        outcome is Ok <==> accepts(*old(linker), ImportSet::Wasi),
        outcome is Ok ==> linked_imports(*final(linker)) == linked_imports(*old(linker)).insert(
            ImportSet::Wasi,
        ),
        outcome is Err ==> linked_imports(*old(linker)).subset_of(linked_imports(*final(linker)))
            && linked_imports(*final(linker)).subset_of(
            linked_imports(*old(linker)).insert(ImportSet::Wasi),
        ),
{
    wasmtime_wasi::p1::add_to_linker_sync(linker, WasmCtx::wasi)
}

/// Calls `wasmtime_wasi_nn::witx::add_to_linker`, which defines the
/// neural-network imports in the linker, one after the other, and stops at
/// the first that the linker refuses, which it does for a name that it
/// defines already. Where it succeeds the linker defines them all, beside
/// what it defined; where it fails the linker has lost nothing, and has
/// gained at most these.
#[verifier::external_body]
pub(crate) fn link_wasi_nn(linker: &mut wasmtime::Linker<WasmCtx>) -> (outcome: Result<
    (),
    wasmtime::Error,
>)
    ensures
        outcome is Ok <==> accepts(*old(linker), ImportSet::WasiNn),
        outcome is Ok ==> linked_imports(*final(linker)) == linked_imports(*old(linker)).insert(
            ImportSet::WasiNn,
        ),
        outcome is Err ==> linked_imports(*old(linker)).subset_of(linked_imports(*final(linker)))
            && linked_imports(*final(linker)).subset_of(
            linked_imports(*old(linker)).insert(ImportSet::WasiNn),
        ),
{
    wasmtime_wasi_nn::witx::add_to_linker(linker, WasmCtx::wasi_nn)
}

/// Calls `Linker::instantiate_pre`, which answers with a template exactly
/// where the linker resolves the module.
#[verifier::external_body]
pub(crate) fn instantiate_pre(
    linker: &wasmtime::Linker<WasmCtx>,
    module: &wasmtime::Module,
) -> (outcome: Result<wasmtime::InstancePre<WasmCtx>, wasmtime::Error>)
    ensures
        outcome is Ok <==> resolves(*linker, *module),
{
    linker.instantiate_pre(module)
}

/// Calls `Display` on the engine's error, for the message of a failure.
#[verifier::external_body]
pub(crate) fn error_text(error: &wasmtime::Error) -> String {
    format!("{error}")
}

/// Why a call of an exported function gave no result.
pub enum CallFailure {
    /// The guest exports no function of that name and type.
    Missing,
    /// The function was called and did not return normally.
    Trapped(wasmtime::Error),
}

/// How an access to an exported memory ended.
#[derive(Clone, Copy, Debug, PartialEq, Eq, Structural)]
pub enum MemoryAccess {
    /// The bytes were written.
    Done,
    /// The range does not lie inside the memory.
    OutOfRange,
    /// The guest exports no memory of that name.
    NoMemory,
}

/// Builds a WASI context that inherits the host's standard streams and an
/// empty neural-network context (`WasiCtxBuilder`, `wasmtime_wasi_nn::preload`,
/// `WasiNnCtx::new`), and calls `Store::new` with them on the engine of the
/// template's module (`InstancePre::module`, `Module::engine`).
#[verifier::external_body]
pub(crate) fn create_store(template: &wasmtime::InstancePre<WasmCtx>) -> (store: wasmtime::Store<
    WasmCtx,
>)
    ensures
        made_for(store, *template),
{
    let wasi = wasmtime_wasi::WasiCtxBuilder::new().inherit_stdio().inherit_stderr().build_p1();
    let (backends, registry) = wasmtime_wasi_nn::preload(&[]).unwrap();
    let wasi_nn = wasmtime_wasi_nn::witx::WasiNnCtx::new(backends, registry);
    wasmtime::Store::new(template.module().engine(), WasmCtx { wasi, wasi_nn })
}

/// As [`create_store`], with `argument` as the guest's one program argument
/// (`WasiCtxBuilder::args`).
#[verifier::external_body]
pub(crate) fn create_store_with_argument(
    template: &wasmtime::InstancePre<WasmCtx>,
    argument: &str,
) -> (store: wasmtime::Store<WasmCtx>)
    ensures
        made_for(store, *template),
{
    let wasi = wasmtime_wasi::WasiCtxBuilder::new().inherit_stdio().args(&[argument]).build_p1();
    let (backends, registry) = wasmtime_wasi_nn::preload(&[]).unwrap();
    let wasi_nn = wasmtime_wasi_nn::witx::WasiNnCtx::new(backends, registry);
    wasmtime::Store::new(template.module().engine(), WasmCtx { wasi, wasi_nn })
}

/// As [`create_store`], with `input` as the bytes that the guest reads from its
/// standard input (`MemoryInputPipe`) and with a buffer in memory behind its
/// standard output (`MemoryOutputPipe`), which is handed back beside the store.
#[verifier::external_body]
pub(crate) fn create_store_with_pipes(template: &wasmtime::InstancePre<WasmCtx>, input: &str) -> (made: (
    wasmtime::Store<WasmCtx>,
    wasmtime_wasi::p2::pipe::MemoryOutputPipe,
))
    ensures
        made_for(made.0, *template),
{
    let stdin = wasmtime_wasi::p2::pipe::MemoryInputPipe::new(input.to_owned());
    let stdout = wasmtime_wasi::p2::pipe::MemoryOutputPipe::new(usize::MAX);
    let wasi = wasmtime_wasi::WasiCtxBuilder::new().stdin(stdin).stdout(
        stdout.clone(),
    ).inherit_stderr().inherit_args().build_p1();
    let (backends, registry) = wasmtime_wasi_nn::preload(&[]).unwrap();
    let wasi_nn = wasmtime_wasi_nn::witx::WasiNnCtx::new(backends, registry);
    (wasmtime::Store::new(template.module().engine(), WasmCtx { wasi, wasi_nn }), stdout)
}

/// Calls `MemoryOutputPipe::contents`: the bytes written to the pipe so far.
#[verifier::external_body]
pub(crate) fn pipe_contents(pipe: &wasmtime_wasi::p2::pipe::MemoryOutputPipe) -> Vec<u8> {
    pipe.contents().to_vec()
}

/// Calls `InstancePre::instantiate` in the store and keeps store and instance
/// together. The store must be of the template's engine: in a store of
/// another engine the call does not return. The instance exports what its
/// module exports. Whether the engine makes an instance is not claimed.
#[verifier::external_body]
pub(crate) fn instantiate(
    template: &wasmtime::InstancePre<WasmCtx>,
    store: wasmtime::Store<WasmCtx>,
) -> (outcome: Result<Guest, wasmtime::Error>)
    requires
        made_for(store, *template),
    ensures
        outcome matches Ok(guest) ==> exported_names(guest) == declared_exports(*template),
{
    let mut store = store;
    let instance = template.instantiate(&mut store)?;
    Ok(Guest { store, instance })
}

/// Drops the guest's store, which releases all of the guest's memory.
#[verifier::external_body]
pub(crate) fn close(guest: Guest) {
    drop(guest.store)
}

/// Calls `Instance::get_export`: whether the guest exports anything under the
/// name. The guest stays as it is.
#[verifier::external_body]
pub(crate) fn exports(guest: &mut Guest, name: &str) -> (found: bool)
    ensures
        forall|n: Seq<char>| exported_memory(*final(guest), n) == exported_memory(*old(guest), n),
        exported_names(*final(guest)) == exported_names(*old(guest)),
        found == exported_names(*old(guest)).contains(name@),
{
    guest.instance.get_export(&mut guest.store, name).is_some()
}

/// Calls `Instance::get_memory` and `Memory::data_size`: the size in bytes of
/// the memory exported under `name`, if there is one; a name that the guest
/// does not export has none. The guest stays as it is.
#[verifier::external_body]
pub(crate) fn memory_len(guest: &mut Guest, name: &str) -> (len: Option<usize>)
    ensures
        forall|n: Seq<char>| exported_memory(*final(guest), n) == exported_memory(*old(guest), n),
        exported_names(*final(guest)) == exported_names(*old(guest)),
        len is Some ==> exported_names(*old(guest)).contains(name@),
        match len {
            Some(len) => exported_memory(*old(guest), name@) matches Some(bytes) && bytes.len()
                == len,
            None => exported_memory(*old(guest), name@) is None,
        },
{
    let memory = guest.instance.get_memory(&mut guest.store, name)?;
    Some(memory.data_size(&guest.store))
}

/// Calls `Instance::get_memory` and `Memory::write`, which writes all of
/// `bytes` at `offset` where they fit into the memory and nothing where they
/// do not.
#[verifier::external_body]
pub(crate) fn memory_write(guest: &mut Guest, name: &str, offset: usize, bytes: &[u8]) -> (outcome:
    MemoryAccess)
    ensures
        exported_names(*final(guest)) == exported_names(*old(guest)),
        match outcome {
            MemoryAccess::Done => exported_memory(*old(guest), name@) matches Some(before)
                && offset + bytes@.len() <= before.len() && exported_memory(*final(guest), name@)
                == Some(
                before.subrange(0, offset as int) + bytes@ + before.subrange(
                    offset + bytes@.len(),
                    before.len() as int,
                ),
            ),
            MemoryAccess::OutOfRange => exported_memory(*old(guest), name@) matches Some(before)
                && offset + bytes@.len() > before.len() && exported_memory(*final(guest), name@)
                == Some(before),
            MemoryAccess::NoMemory => exported_memory(*old(guest), name@) is None
                && exported_memory(*final(guest), name@) is None,
        },
{
    match guest.instance.get_memory(&mut guest.store, name) {
        None => MemoryAccess::NoMemory,
        Some(memory) => match memory.write(&mut guest.store, offset, bytes) {
            Ok(()) => MemoryAccess::Done,
            Err(_) => MemoryAccess::OutOfRange,
        },
    }
}

/// Calls `Instance::get_memory` and `Memory::read` with a buffer of `len`
/// bytes, which fills the buffer from `offset` on where that range lies
/// inside the memory, and fails where it does not. The guest's memories stay
/// as they are.
#[verifier::external_body]
pub(crate) fn memory_read(guest: &mut Guest, name: &str, offset: usize, len: usize) -> (bytes:
    Option<Vec<u8>>)
    ensures
        forall|n: Seq<char>| exported_memory(*final(guest), n) == exported_memory(*old(guest), n),
        exported_names(*final(guest)) == exported_names(*old(guest)),
        match bytes {
            Some(bytes) => exported_memory(*old(guest), name@) matches Some(memory) && offset + len
                <= memory.len() && bytes@ == memory.subrange(offset as int, offset + len),
            None => exported_memory(*old(guest), name@) matches Some(memory) ==> offset + len
                > memory.len(),
        },
{
    let memory = guest.instance.get_memory(&mut guest.store, name)?;
    let mut buffer = vec![0; len];
    memory.read(&guest.store, offset, &mut buffer).ok()?;
    Some(buffer)
}

/// Calls `Instance::get_typed_func` for a function without parameters and
/// results, and calls it. A guest that exports nothing under the name is
/// answered with `Missing`. The guest exports after the call what it
/// exported. Nothing else is claimed of the outcome, and nothing of the
/// guest's memories after it.
#[verifier::external_body]
pub(crate) fn call_unit(guest: &mut Guest, name: &str) -> (outcome: Result<(), CallFailure>)
    ensures
        exported_names(*final(guest)) == exported_names(*old(guest)),
        exported_names(*old(guest)).contains(name@) || (outcome matches Err(failure)
            && failure is Missing),
{
    match guest.instance.get_typed_func::<(), ()>(&mut guest.store, name) {
        Err(_) => Err(CallFailure::Missing),
        Ok(function) => function.call(&mut guest.store, ()).map_err(CallFailure::Trapped),
    }
}

/// Calls `Instance::get_typed_func` for a function without parameters that
/// returns a 32-bit integer, and calls it. A guest that exports nothing
/// under the name is answered with `Missing`. The guest exports after the
/// call what it exported. Nothing else is claimed of the outcome, and
/// nothing of the guest's memories after it.
#[verifier::external_body]
pub(crate) fn call_to_u32(guest: &mut Guest, name: &str) -> (outcome: Result<u32, CallFailure>)
    ensures
        exported_names(*final(guest)) == exported_names(*old(guest)),
        exported_names(*old(guest)).contains(name@) || (outcome matches Err(failure)
            && failure is Missing),
{
    match guest.instance.get_typed_func::<(), u32>(&mut guest.store, name) {
        Err(_) => Err(CallFailure::Missing),
        Ok(function) => function.call(&mut guest.store, ()).map_err(CallFailure::Trapped),
    }
}

/// Calls `Instance::get_typed_func` for a function from a 32-bit integer to a
/// 32-bit integer, and calls it with `argument`. A guest that exports nothing
/// under the name is answered with `Missing`. The guest exports after the
/// call what it exported. Nothing else is claimed of the outcome, and
/// nothing of the guest's memories after it.
#[verifier::external_body]
pub(crate) fn call_u32_to_u32(guest: &mut Guest, name: &str, argument: u32) -> (outcome: Result<
    u32,
    CallFailure,
>)
    ensures
        exported_names(*final(guest)) == exported_names(*old(guest)),
        exported_names(*old(guest)).contains(name@) || (outcome matches Err(failure)
            && failure is Missing),
{
    match guest.instance.get_typed_func::<u32, u32>(&mut guest.store, name) {
        Err(_) => Err(CallFailure::Missing),
        Ok(function) => function.call(&mut guest.store, argument).map_err(CallFailure::Trapped),
    }
}

/// `wasmtime_wasi_nn::wit::WasiNnView`, opaque here: the library carries it
/// and never looks inside.
#[verifier::external_type_specification]
#[verifier::external_body]
pub struct ExWasiNnView<'a>(wasmtime_wasi_nn::wit::WasiNnView<'a>);

/// The state that the store of a component carries through one invocation:
/// the WASI context, the context of the neural-network imports, and the
/// table of the resources that the guest holds.
pub struct MyState {
    ctx: wasmtime_wasi::WasiCtx,
    wasi_nn: wasmtime_wasi_nn::wit::WasiNnCtx,
    table: wasmtime::component::ResourceTable,
}

impl wasmtime_wasi::WasiView for MyState {
    /// Hands the WASI context and the table of the state to the host
    /// functions of `wasmtime_wasi`, which ask for them through this method.
    #[verifier::external_body]
    fn ctx(&mut self) -> wasmtime_wasi::WasiCtxView<'_> {
        wasmtime_wasi::WasiCtxView { ctx: &mut self.ctx, table: &mut self.table }
    }
}

impl MyState {
    /// The table of the state.
    pub closed spec fn spec_table(self) -> wasmtime::component::ResourceTable {
        self.table
    }

    /// The neural-network context of the state.
    pub closed spec fn spec_wasi_nn(self) -> wasmtime_wasi_nn::wit::WasiNnCtx {
        self.wasi_nn
    }

    /// The table of resources, for the host functions to work on. Nothing
    /// else of the state changes through the reference.
    pub fn table(&mut self) -> (table: &mut wasmtime::component::ResourceTable)
        ensures
            *table == old(self).spec_table(),
            final(self).spec_table() == *final(table),
            final(self).spec_wasi_nn() == old(self).spec_wasi_nn(),
    {
        &mut self.table
    }

    /// The neural-network context, for the host functions to work on.
    /// Nothing else of the state changes through the reference.
    pub fn wasi_nn(&mut self) -> (ctx: &mut wasmtime_wasi_nn::wit::WasiNnCtx)
        ensures
            *ctx == old(self).spec_wasi_nn(),
            final(self).spec_wasi_nn() == *final(ctx),
            final(self).spec_table() == old(self).spec_table(),
    {
        &mut self.wasi_nn
    }

    /// Calls `WasiNnView::new` on the table and the neural-network context
    /// of the state, for the neural-network host functions, which ask for
    /// them through this function.
    #[verifier::external_body]
    fn nn_view(&mut self) -> wasmtime_wasi_nn::wit::WasiNnView<'_> {
        wasmtime_wasi_nn::wit::WasiNnView::new(&mut self.table, &mut self.wasi_nn)
    }
}

/// A live guest that is a component: a store and the instance that was
/// created in it.
pub struct ComponentGuest {
    store: wasmtime::Store<MyState>,
    instance: wasmtime::component::Instance,
}

/// Calls `component::Linker::new` for the engine: a linker that defines
/// nothing.
#[verifier::external_body]
pub(crate) fn new_component_linker(engine: &wasmtime::Engine) -> (linker:
    wasmtime::component::Linker<MyState>)
    ensures
        linked_interfaces(linker) == Set::<ImportSet>::empty(),
{
    wasmtime::component::Linker::new(engine)
}

/// Calls `wasmtime_wasi::p2::add_to_linker_sync`, which defines the WASI
/// interfaces in the linker, one after the other, and stops at the first
/// that the linker refuses. Where it succeeds the linker defines them all,
/// beside what it defined; where it fails the linker has lost nothing, and
/// has gained at most these.
#[verifier::external_body]
pub(crate) fn link_component_wasi(linker: &mut wasmtime::component::Linker<MyState>) -> (outcome:
    Result<(), wasmtime::Error>)
    ensures
        outcome is Ok <==> accepts_interfaces(*old(linker), ImportSet::Wasi),
        outcome is Ok ==> linked_interfaces(*final(linker)) == linked_interfaces(
            *old(linker),
        ).insert(ImportSet::Wasi),
        outcome is Err ==> linked_interfaces(*old(linker)).subset_of(
            linked_interfaces(*final(linker)),
        ) && linked_interfaces(*final(linker)).subset_of(
            linked_interfaces(*old(linker)).insert(ImportSet::Wasi),
        ),
{
    wasmtime_wasi::p2::add_to_linker_sync(linker)
}

/// Calls `wasmtime_wasi_nn::wit::add_to_linker`, which defines the
/// neural-network interfaces in the linker, one after the other, and stops
/// at the first that the linker refuses; they reach the state's table and
/// neural-network context. Where it succeeds the linker defines them all,
/// beside what it defined; where it fails the linker has lost nothing, and
/// has gained at most these.
#[verifier::external_body]
pub(crate) fn link_component_wasi_nn(linker: &mut wasmtime::component::Linker<MyState>) -> (outcome:
    Result<(), wasmtime::Error>)
    ensures
        outcome is Ok <==> accepts_interfaces(*old(linker), ImportSet::WasiNn),
        outcome is Ok ==> linked_interfaces(*final(linker)) == linked_interfaces(
            *old(linker),
        ).insert(ImportSet::WasiNn),
        outcome is Err ==> linked_interfaces(*old(linker)).subset_of(
            linked_interfaces(*final(linker)),
        ) && linked_interfaces(*final(linker)).subset_of(
            linked_interfaces(*old(linker)).insert(ImportSet::WasiNn),
        ),
{
    wasmtime_wasi_nn::wit::add_to_linker(linker, MyState::nn_view)
}

/// Calls `component::Linker::instantiate_pre`, which answers with a
/// template exactly where the linker resolves the component.
#[verifier::external_body]
pub(crate) fn instantiate_pre_component(
    linker: &wasmtime::component::Linker<MyState>,
    component: &wasmtime::component::Component,
) -> (outcome: Result<wasmtime::component::InstancePre<MyState>, wasmtime::Error>)
    ensures
        outcome is Ok <==> resolves_component(*linker, *component),
{
    linker.instantiate_pre(component)
}

/// Builds a WASI context that inherits the host's standard streams, an empty
/// neural-network context and an empty table (`WasiCtxBuilder`,
/// `wasmtime_wasi_nn::preload`, `WasiNnCtx::new`, `ResourceTable::new`), and
/// calls `Store::new` with them on the engine of the template
/// (`component::InstancePre::engine`), so that store and template are of one
/// engine.
#[verifier::external_body]
pub(crate) fn create_component_store(
    template: &wasmtime::component::InstancePre<MyState>,
) -> wasmtime::Store<MyState> {
    let ctx = wasmtime_wasi::WasiCtxBuilder::new().inherit_stdio().inherit_stderr().build();
    let (backends, registry) = wasmtime_wasi_nn::preload(&[]).unwrap();
    let wasi_nn = wasmtime_wasi_nn::wit::WasiNnCtx::new(backends, registry);
    let table = wasmtime::component::ResourceTable::new();
    wasmtime::Store::new(template.engine(), MyState { ctx, wasi_nn, table })
}

/// Calls `component::InstancePre::instantiate` in the store and keeps store
/// and instance together. The instance exports what its component exports.
/// Whether the engine makes an instance is not claimed.
#[verifier::external_body]
pub(crate) fn instantiate_component(
    template: &wasmtime::component::InstancePre<MyState>,
    store: wasmtime::Store<MyState>,
) -> (outcome: Result<ComponentGuest, wasmtime::Error>)
    ensures
        outcome matches Ok(guest) ==> component_exported_names(guest)
            == declared_component_exports(*template),
{
    let mut store = store;
    let instance = template.instantiate(&mut store)?;
    Ok(ComponentGuest { store, instance })
}

/// Calls `component::Instance::get_func` and `component::Func::call` with
/// `input` as the one argument, a string, and room for one result. It hands
/// back the result's text where the result is a string, and `None` where it
/// is a value of another type. A guest that exports nothing under the name
/// is answered with `Missing`. Nothing else is claimed of the outcome.
#[verifier::external_body]
pub(crate) fn call_text_function(guest: &mut ComponentGuest, name: &str, input: String) -> (outcome:
    Result<Option<String>, CallFailure>)
    ensures
        component_exported_names(*final(guest)) == component_exported_names(*old(guest)),
        component_exported_names(*old(guest)).contains(name@) || (outcome matches Err(failure)
            && failure is Missing),
{
    let function = guest.instance.get_func(&mut guest.store, name).ok_or(CallFailure::Missing)?;
    let mut results = [wasmtime::component::Val::Bool(false)];
    function.call(&mut guest.store, &[wasmtime::component::Val::String(input)], &mut results).map_err(
        CallFailure::Trapped,
    )?;
    match &results[0] {
        wasmtime::component::Val::String(text) => Ok(Some(text.clone())),
        _ => Ok(None),
    }
}

} // verus!
