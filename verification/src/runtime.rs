//! The runtime: the registrations, the caches, and the three operations
//! `initialize`, `run` and `destroy`.

use vstd::prelude::*;
use vstd::string::*;
use crate::action::{ActionCapabilities, Artifact, Template, WasmAction};
use crate::assets::{
    check_images, fault_message, fetch_one, fetched_one, handle_replace_images, image_fault,
    image_field, image_replaced, images_handled, model_address, model_replaced,
    replace_image_urls, replace_model_url, spec_addresses, spec_image_field, spec_model_address,
    spec_objects, spec_replacement, AddressFault, FetchRequest, ImageField, Replacement,
};
use crate::cache::{
    get_template, hash64, insert_template, metro_hash64, new_template_cache, refresh_template,
    stored_templates, template_lifetimes, TemplateCache,
};
use crate::clock::{elapsed, now, seconds_json, span_number, Span};
use crate::engine::{
    accepts, accepts_interfaces, call_text_function, call_unit, close, component_declares,
    create_component_store, create_store, create_store_with_argument, create_store_with_pipes,
    declared_component_exports, declared_exports, declares, error_text, exported_names, exports,
    instantiate, instantiate_component, instantiate_pre, instantiate_pre_component,
    link_component_wasi, link_component_wasi_nn, link_wasi, link_wasi_nn, linked_imports,
    linked_interfaces, made_for, new_component_linker, new_engine, new_linker, pipe_contents,
    resolves, resolves_component, Guest, ImportSet, MyState, WasmCtx,
};
use crate::error::{ErrorKind, RunError};
use crate::json::{json_of_text, parse_text, Json, JsonView};
use crate::marshal::{
    call_error, decode_output, decoded, decoded_response, input_text, lacks, missing_export,
    missing_message, pass_input, pass_model, retrieve_result,
};
use crate::registry::{lookup, new_registry, register, registered, unregister, Registry};

verus! {

/// The lifetime of a cache entry, in seconds, counted from the moment it was
/// stored or last read.
pub const CACHE_TTL_SECS: u32 = 60;

/// The calling convention between host and guest. It is chosen when the
/// runtime is made and holds for every action registered with it.
#[derive(Clone, Copy, Debug, PartialEq, Eq, Structural)]
pub enum Abi {
    /// The request is the guest's one program argument; the result is read
    /// from the guest's memory.
    Argv,
    /// The request is piped to the guest's standard input; the result is
    /// read from its standard output.
    Stdio,
    /// Request and result are passed through the guest's linear memory.
    Memory,
    /// As `Memory`, with the model's bytes passed through memory too and the
    /// neural-network imports installed.
    MemoryNn,
    /// The guest is a component that exports a function from string to
    /// string.
    Component,
    /// As `Component`, with model and images fetched and written into the
    /// request as Base64, and the neural-network imports installed.
    ComponentNn,
}

/// How `initialize` came by the template that it registered.
#[derive(Clone, Copy, Debug, PartialEq, Eq, Structural)]
pub enum Prepared {
    /// The template was made from the compiled bytes.
    Fresh,
    /// The template was found in the cache, made earlier from the same bytes.
    Reused,
}

/// The Wasm runtime of the executor.
pub struct Wasmtime {
    pub engine: wasmtime::Engine,
    pub abi: Abi,
    pub ttl_secs: u32,
    pub instance_pres: Registry,
    pub instance_pre_cache: TemplateCache,
}

/// What a runtime holds, as mathematical values.
pub struct RuntimeView {
    /// The registered actions by container id.
    pub registered: Map<Seq<char>, WasmAction<Template>>,
    /// The templates that the cache stores, by content hash.
    pub templates: Map<u64, Template>,
}

impl RuntimeView {
    /// The state of a runtime that was just made.
    pub open spec fn empty() -> RuntimeView {
        RuntimeView { registered: Map::empty(), templates: Map::empty() }
    }

    /// The state after `container_id` was bound to `action`.
    pub open spec fn with_action(
        self,
        container_id: Seq<char>,
        action: WasmAction<Template>,
    ) -> RuntimeView {
        RuntimeView { registered: self.registered.insert(container_id, action), ..self }
    }

    /// The state after the binding of `container_id` was removed.
    pub open spec fn without_action(self, container_id: Seq<char>) -> RuntimeView {
        RuntimeView { registered: self.registered.remove(container_id), ..self }
    }

    /// The state after `template` was cached under `key`.
    pub open spec fn with_template(self, key: u64, template: Template) -> RuntimeView {
        RuntimeView { templates: self.templates.insert(key, template), ..self }
    }

    /// The state after the cache dropped the entry of `key`.
    pub open spec fn without_template(self, key: u64) -> RuntimeView {
        RuntimeView { templates: self.templates.remove(key), ..self }
    }
}

/// Whether the cache has an entry of `key` that was last given `secs`
/// seconds to live.
pub open spec fn renewed(lifetimes: Map<u64, u64>, key: u64, secs: u32) -> bool {
    lifetimes.contains_key(key) && lifetimes[key] == secs
}

impl View for Wasmtime {
    type V = RuntimeView;

    open spec fn view(&self) -> RuntimeView {
        RuntimeView {
            registered: registered(self.instance_pres),
            templates: stored_templates(self.instance_pre_cache),
        }
    }
}

impl Abi {
    /// The convention that a name stands for.
    pub open spec fn spec_parse(name: Seq<char>) -> Option<Abi> {
        if name == "argv"@ {
            Some(Abi::Argv)
        } else if name == "stdio"@ {
            Some(Abi::Stdio)
        } else if name == "memory"@ {
            Some(Abi::Memory)
        } else if name == "memory-nn"@ {
            Some(Abi::MemoryNn)
        } else if name == "component"@ {
            Some(Abi::Component)
        } else if name == "component-nn"@ {
            Some(Abi::ComponentNn)
        } else {
            None
        }
    }

    /// The convention that a name stands for: `argv`, `stdio`, `memory`,
    /// `memory-nn`, `component` or `component-nn`.
    pub fn parse(name: &str) -> (abi: Option<Abi>)
        ensures
            abi == Self::spec_parse(name@),
    {
        let name: String = name.to_owned();
        let argv: String = "argv".to_owned();
        let stdio: String = "stdio".to_owned();
        let memory: String = "memory".to_owned();
        let memory_nn: String = "memory-nn".to_owned();
        let component: String = "component".to_owned();
        let component_nn: String = "component-nn".to_owned();
        if name == argv {
            Some(Abi::Argv)
        } else if name == stdio {
            Some(Abi::Stdio)
        } else if name == memory {
            Some(Abi::Memory)
        } else if name == memory_nn {
            Some(Abi::MemoryNn)
        } else if name == component {
            Some(Abi::Component)
        } else if name == component_nn {
            Some(Abi::ComponentNn)
        } else {
            None
        }
    }

    /// Whether the convention runs components rather than core modules.
    pub open spec fn spec_is_component(self) -> bool {
        self == Abi::Component || self == Abi::ComponentNn
    }

    /// Whether the convention runs components rather than core modules.
    pub fn is_component(self) -> (yes: bool)
        ensures
            yes == self.spec_is_component(),
    {
        match self {
            Abi::Component | Abi::ComponentNn => true,
            _ => false,
        }
    }

    /// Whether the request reaches the guest through its standard input.
    pub open spec fn spec_uses_stdio(self) -> bool {
        self == Abi::Stdio
    }

    /// Whether the request reaches the guest through its standard input.
    pub fn uses_stdio(self) -> (yes: bool)
        ensures
            yes == self.spec_uses_stdio(),
    {
        match self {
            Abi::Stdio => true,
            _ => false,
        }
    }

    /// Whether the request reaches the guest through a slot in its memory.
    pub open spec fn spec_uses_slots(self) -> bool {
        self == Abi::Memory || self == Abi::MemoryNn
    }

    /// Whether the request reaches the guest through a slot in its memory.
    pub fn uses_slots(self) -> (yes: bool)
        ensures
            yes == self.spec_uses_slots(),
    {
        match self {
            Abi::Memory | Abi::MemoryNn => true,
            _ => false,
        }
    }

    /// Whether the convention installs the neural-network imports.
    pub open spec fn spec_uses_nn(self) -> bool {
        self == Abi::MemoryNn || self == Abi::ComponentNn
    }

    /// Whether the convention installs the neural-network imports.
    pub fn uses_nn(self) -> (yes: bool)
        ensures
            yes == self.spec_uses_nn(),
    {
        match self {
            Abi::MemoryNn | Abi::ComponentNn => true,
            _ => false,
        }
    }
}

/// A failure of the engine, with the engine's own words as the message.
pub fn engine_error(kind: ErrorKind, error: &wasmtime::Error) -> (failure: RunError)
    ensures
        failure.kind == kind,
{
    RunError { kind, message: error_text(error) }
}

/// The sets of host imports that a calling convention installs: the WASI
/// system calls, and for a convention with a model the neural-network
/// imports too.
pub open spec fn host_imports(abi: Abi) -> Set<ImportSet> {
    if abi.spec_uses_nn() {
        Set::<ImportSet>::empty().insert(ImportSet::Wasi).insert(ImportSet::WasiNn)
    } else {
        Set::<ImportSet>::empty().insert(ImportSet::Wasi)
    }
}

/// What holds after the host imports of a calling convention were to be
/// installed in a linker for core modules.
///
/// It succeeds exactly where the linker takes the WASI system calls and,
/// for a convention with a model, the linker that has them takes the
/// neural-network imports too; the linker then defines them, beside what it
/// defined. Else it is a linker error: the linker refused one of the two
/// sets, has lost nothing and has gained at most them.
pub open spec fn host_imports_linked(
    before: wasmtime::Linker<WasmCtx>,
    after: wasmtime::Linker<WasmCtx>,
    abi: Abi,
    outcome: Result<(), RunError>,
) -> bool {
    let had = linked_imports(before);
    let has = linked_imports(after);
    match outcome {
        Ok(()) => {
            &&& has == had.union(host_imports(abi))
            &&& accepts(before, ImportSet::Wasi)
            &&& abi.spec_uses_nn() ==> exists|between: wasmtime::Linker<WasmCtx>|
                #![trigger accepts(between, ImportSet::WasiNn)]
                linked_imports(between) == had.insert(ImportSet::Wasi) && accepts(
                    between,
                    ImportSet::WasiNn,
                )
        },
        Err(error) => {
            &&& error.kind == ErrorKind::LinkerError
            &&& had.subset_of(has)
            &&& has.subset_of(had.union(host_imports(abi)))
            &&& {
                ||| !accepts(before, ImportSet::Wasi)
                ||| abi.spec_uses_nn() && exists|between: wasmtime::Linker<WasmCtx>|
                    #![trigger accepts(between, ImportSet::WasiNn)]
                    linked_imports(between) == had.insert(ImportSet::Wasi) && !accepts(
                        between,
                        ImportSet::WasiNn,
                    )
            }
        },
    }
}

/// Installs the host imports of a calling convention for core modules in the
/// linker: the WASI system calls, and for the neural-network convention the
/// neural-network imports too. A refusal of the linker is a linker error.
pub fn link_host_functions(linker: &mut wasmtime::Linker<WasmCtx>, abi: Abi) -> (outcome: Result<
    (),
    RunError,
>)
    ensures
        host_imports_linked(*old(linker), *final(linker), abi, outcome),
        !abi.spec_uses_nn() ==> (outcome is Ok <==> accepts(*old(linker), ImportSet::Wasi)),
{
    match link_wasi(linker) {
        Err(error) => {
            return Err(engine_error(ErrorKind::LinkerError, &error));
        },
        Ok(()) => {},
    }
    let ghost between = *linker;
    if abi.uses_nn() {
        match link_wasi_nn(linker) {
            Err(error) => {
                assert(!accepts(between, ImportSet::WasiNn));
                return Err(engine_error(ErrorKind::LinkerError, &error));
            },
            Ok(()) => {},
        }
        assert(accepts(between, ImportSet::WasiNn));
    }
    assert(linked_imports(*linker) =~= linked_imports(*old(linker)).union(host_imports(abi)));
    Ok(())
}

/// What holds after the host imports of a calling convention were to be
/// installed in a linker for components: as [`host_imports_linked`] says of
/// a linker for core modules.
pub open spec fn host_interfaces_linked(
    before: wasmtime::component::Linker<MyState>,
    after: wasmtime::component::Linker<MyState>,
    abi: Abi,
    outcome: Result<(), RunError>,
) -> bool {
    let had = linked_interfaces(before);
    let has = linked_interfaces(after);
    match outcome {
        Ok(()) => {
            &&& has == had.union(host_imports(abi))
            &&& accepts_interfaces(before, ImportSet::Wasi)
            &&& abi.spec_uses_nn() ==> exists|between: wasmtime::component::Linker<MyState>|
                #![trigger accepts_interfaces(between, ImportSet::WasiNn)]
                linked_interfaces(between) == had.insert(ImportSet::Wasi) && accepts_interfaces(
                    between,
                    ImportSet::WasiNn,
                )
        },
        Err(error) => {
            &&& error.kind == ErrorKind::LinkerError
            &&& had.subset_of(has)
            &&& has.subset_of(had.union(host_imports(abi)))
            &&& {
                ||| !accepts_interfaces(before, ImportSet::Wasi)
                ||| abi.spec_uses_nn() && exists|between: wasmtime::component::Linker<MyState>|
                    #![trigger accepts_interfaces(between, ImportSet::WasiNn)]
                    linked_interfaces(between) == had.insert(ImportSet::Wasi)
                        && !accepts_interfaces(between, ImportSet::WasiNn)
            }
        },
    }
}

/// Installs the host imports of a calling convention for components in the
/// linker: the WASI interfaces, and for the neural-network convention the
/// neural-network interfaces too. A refusal of the linker is a linker error.
pub fn link_component_host_functions(
    linker: &mut wasmtime::component::Linker<MyState>,
    abi: Abi,
) -> (outcome: Result<(), RunError>)
    ensures
        host_interfaces_linked(*old(linker), *final(linker), abi, outcome),
        !abi.spec_uses_nn() ==> (outcome is Ok <==> accepts_interfaces(
            *old(linker),
            ImportSet::Wasi,
        )),
{
    match link_component_wasi(linker) {
        Err(error) => {
            return Err(engine_error(ErrorKind::LinkerError, &error));
        },
        Ok(()) => {},
    }
    let ghost between = *linker;
    if abi.uses_nn() {
        match link_component_wasi_nn(linker) {
            Err(error) => {
                assert(!accepts_interfaces(between, ImportSet::WasiNn));
                return Err(engine_error(ErrorKind::LinkerError, &error));
            },
            Ok(()) => {},
        }
        assert(accepts_interfaces(between, ImportSet::WasiNn));
    }
    assert(linked_interfaces(*linker) =~= linked_interfaces(*old(linker)).union(
        host_imports(abi),
    ));
    Ok(())
}

/// Whether an artifact is of the kind that a calling convention runs.
pub open spec fn fits(abi: Abi, artifact: Artifact) -> bool {
    abi.spec_is_component() <==> artifact is Component
}

/// What holds when a module was prepared for a calling convention. A
/// template comes from a linker that defines exactly the host imports of the
/// convention and resolves the module. A failure is a linker error: either a
/// linker that defined nothing refused the host imports, or the linker that
/// defines exactly them does not resolve the module.
pub open spec fn module_prepared(
    abi: Abi,
    module: wasmtime::Module,
    outcome: Result<Template, RunError>,
) -> bool {
    match outcome {
        Ok(template) => template is Module && exists|linker: wasmtime::Linker<WasmCtx>|
            #![trigger resolves(linker, module)]
            linked_imports(linker) == host_imports(abi) && resolves(linker, module),
        Err(error) => error.kind == ErrorKind::LinkerError && {
            ||| exists|fresh: wasmtime::Linker<WasmCtx>, left: wasmtime::Linker<WasmCtx>|
                #![trigger host_imports_linked(fresh, left, abi, Err(error))]
                linked_imports(fresh) == Set::<ImportSet>::empty() && host_imports_linked(
                    fresh,
                    left,
                    abi,
                    Err(error),
                )
            ||| exists|linker: wasmtime::Linker<WasmCtx>|
                #![trigger resolves(linker, module)]
                linked_imports(linker) == host_imports(abi) && !resolves(linker, module)
        },
    }
}

/// What holds when a component was prepared for a calling convention: as
/// [`module_prepared`] says of a module.
pub open spec fn component_prepared(
    abi: Abi,
    component: wasmtime::component::Component,
    outcome: Result<Template, RunError>,
) -> bool {
    match outcome {
        Ok(template) => template is Component && exists|
            linker: wasmtime::component::Linker<MyState>,
        |
            #![trigger resolves_component(linker, component)]
            linked_interfaces(linker) == host_imports(abi) && resolves_component(
                linker,
                component,
            ),
        Err(error) => error.kind == ErrorKind::LinkerError && {
            ||| exists|
                fresh: wasmtime::component::Linker<MyState>,
                left: wasmtime::component::Linker<MyState>,
            |
                #![trigger host_interfaces_linked(fresh, left, abi, Err(error))]
                linked_interfaces(fresh) == Set::<ImportSet>::empty() && host_interfaces_linked(
                    fresh,
                    left,
                    abi,
                    Err(error),
                )
            ||| exists|linker: wasmtime::component::Linker<MyState>|
                #![trigger resolves_component(linker, component)]
                linked_interfaces(linker) == host_imports(abi) && !resolves_component(
                    linker,
                    component,
                )
        },
    }
}

/// Makes the prepared template of an artifact: a fresh linker with the host
/// imports of the calling convention, and the artifact pre-instantiated
/// against it.
///
/// An artifact that is not of the kind that the convention runs is refused
/// as not deserializable. Else the linker decides: there is a template
/// exactly where it takes the host imports and then resolves the artifact,
/// and every failure is a linker error.
pub fn prepare(engine: &wasmtime::Engine, abi: Abi, artifact: &Artifact) -> (outcome: Result<
    Template,
    RunError,
>)
    ensures
        !fits(abi, *artifact) ==> (outcome matches Err(error) && error.kind
            == ErrorKind::ModuleDeserializeError),
        fits(abi, *artifact) ==> match *artifact {
            Artifact::Module(module) => module_prepared(abi, module, outcome),
            Artifact::Component(component) => component_prepared(abi, component, outcome),
        },
{
    match artifact {
        Artifact::Module(module) => {
            if abi.is_component() {
                return Err(
                    RunError::new(
                        ErrorKind::ModuleDeserializeError,
                        "a component is needed, and the bytes hold a module",
                    ),
                );
            }
            let mut linker = new_linker(engine);
            let ghost fresh = linker;
            match link_host_functions(&mut linker, abi) {
                Err(error) => {
                    assert(host_imports_linked(fresh, linker, abi, Err(error)));
                    return Err(error);
                },
                Ok(()) => {},
            }
            assert(linked_imports(linker) =~= host_imports(abi));
            match instantiate_pre(&linker, module) {
                Err(error) => {
                    assert(!resolves(linker, *module));
                    Err(engine_error(ErrorKind::LinkerError, &error))
                },
                Ok(template) => {
                    assert(resolves(linker, *module));
                    Ok(Template::Module(template))
                },
            }
        },
        Artifact::Component(component) => {
            if !abi.is_component() {
                return Err(
                    RunError::new(
                        ErrorKind::ModuleDeserializeError,
                        "a module is needed, and the bytes hold a component",
                    ),
                );
            }
            let mut linker = new_component_linker(engine);
            let ghost fresh = linker;
            match link_component_host_functions(&mut linker, abi) {
                Err(error) => {
                    assert(host_interfaces_linked(fresh, linker, abi, Err(error)));
                    return Err(error);
                },
                Ok(()) => {},
            }
            assert(linked_interfaces(linker) =~= host_imports(abi));
            match instantiate_pre_component(&linker, component) {
                Err(error) => {
                    assert(!resolves_component(linker, *component));
                    Err(engine_error(ErrorKind::LinkerError, &error))
                },
                Ok(template) => {
                    assert(resolves_component(linker, *component));
                    Ok(Template::Component(template))
                },
            }
        },
    }
}

/// What `initialize` leaves behind, for a request with the given id,
/// capabilities and compiled bytes, whose content hash is `key`.
///
/// Where the template was reused, it is the one that the cache stored under
/// the hash of the bytes, and it is now registered under the id; the cache
/// stores what it stored. Where the template is fresh, it is stored in the
/// cache under the hash and registered under the id. Where `initialize`
/// fails, nothing is registered and the cache has no entry for the hash.
pub open spec fn initialized(
    before: RuntimeView,
    after: RuntimeView,
    container_id: Seq<char>,
    capabilities: ActionCapabilities,
    key: u64,
    outcome: Result<Prepared, RunError>,
) -> bool {
    match outcome {
        Ok(Prepared::Reused) => {
            let action = WasmAction { module: before.templates[key], capabilities };
            &&& before.templates.contains_key(key)
            &&& after == before.with_action(container_id, action)
        },
        Ok(Prepared::Fresh) => exists|template: Template|
            #![trigger before.with_template(key, template)]
            after == before.with_template(key, template).with_action(
                container_id,
                WasmAction { module: template, capabilities },
            ),
        Err(error) => {
            &&& after == before.without_template(key)
            &&& (error.kind == ErrorKind::ModuleDeserializeError || error.kind
                == ErrorKind::LinkerError)
        },
    }
}

/// What holds when an artifact of the kind that a calling convention runs
/// was prepared for it.
pub open spec fn prepared(abi: Abi, artifact: Artifact, outcome: Result<Template, RunError>) -> bool {
    match artifact {
        Artifact::Module(module) => module_prepared(abi, module, outcome),
        Artifact::Component(component) => component_prepared(abi, component, outcome),
    }
}

/// What the outcome of `initialize` says of `load` and of the linker. A
/// fresh template was prepared from an artifact that `load` made and that is
/// of the kind that the convention runs; a linker error is the failure of
/// preparing such an artifact. A module-deserialize error comes from a
/// refusal of `load`, or from an artifact of the other kind.
pub open spec fn loaded<F: FnOnce(&wasmtime::Engine, &Vec<u8>) -> Option<Artifact>>(
    engine: wasmtime::Engine,
    abi: Abi,
    module: Vec<u8>,
    load: F,
    registered: Template,
    outcome: Result<Prepared, RunError>,
) -> bool {
    match outcome {
        Ok(Prepared::Reused) => true,
        Ok(Prepared::Fresh) => exists|artifact: Artifact|
            #![trigger fits(abi, artifact)]
            load.ensures((&engine, &module), Some(artifact)) && fits(abi, artifact) && prepared(
                abi,
                artifact,
                Ok(registered),
            ),
        Err(error) => if error.kind == ErrorKind::LinkerError {
            exists|artifact: Artifact|
                #![trigger fits(abi, artifact)]
                load.ensures((&engine, &module), Some(artifact)) && fits(abi, artifact)
                    && prepared(abi, artifact, Err(error))
        } else {
            load.ensures((&engine, &module), None) || exists|artifact: Artifact|
                #![trigger fits(abi, artifact)]
                load.ensures((&engine, &module), Some(artifact)) && !fits(abi, artifact)
        },
    }
}

impl Wasmtime {
    /// The key under which the template of compiled bytes is cached: the
    /// 64-bit hash of the bytes, and of nothing else.
    pub fn content_key(module: &[u8]) -> (key: u64)
        ensures
            key == metro_hash64(module@),
    {
        hash64(module)
    }

    /// A runtime on the given engine for the calling convention, without
    /// registrations and with empty caches, whose entries live for
    /// `ttl_secs` seconds.
    pub fn with_engine(engine: wasmtime::Engine, abi: Abi, ttl_secs: u32) -> (runtime: Wasmtime)
        ensures
            runtime.engine == engine,
            runtime.abi == abi,
            runtime.ttl_secs == ttl_secs,
            runtime@ == RuntimeView::empty(),
    {
        Wasmtime {
            engine,
            abi,
            ttl_secs,
            instance_pres: new_registry(),
            instance_pre_cache: new_template_cache(),
        }
    }

    /// A runtime for the calling convention, with a fresh engine, without
    /// registrations and with empty caches, whose entries live for 60
    /// seconds.
    pub fn new(abi: Abi) -> (runtime: Wasmtime)
        ensures
            runtime.abi == abi,
            runtime.ttl_secs == 60,
            runtime@ == RuntimeView::empty(),
    {
        Wasmtime::with_engine(new_engine(), abi, CACHE_TTL_SECS)
    }

    /// Registers an action under `container_id`, in place of what the id was
    /// bound to. The prepared template of the action is taken from the cache
    /// where the cache has a live entry under the hash of `module`; that
    /// entry is then given its full lifetime again, and stored anew should it
    /// have expired in between. Else `load` is asked to deserialize `module`,
    /// the artifact is prepared for the calling convention, and the template
    /// is stored in the cache under the hash, with the runtime's lifetime.
    /// Either way the cache then has the template under the hash, with the
    /// runtime's lifetime before it.
    ///
    /// The cache's clock, `load` and the linker decide which of these
    /// happens. A refusal of `load` is a module-deserialize error; so is an
    /// artifact of the wrong kind; every other failure is a linker error.
    pub fn initialize<F>(
        &mut self,
        container_id: String,
        capabilities: ActionCapabilities,
        module: Vec<u8>,
        load: F,
    ) -> (outcome: Result<Prepared, RunError>) where
        F: FnOnce(&wasmtime::Engine, &Vec<u8>) -> Option<Artifact>,

        requires
            load.requires((&old(self).engine, &module)),
        ensures
            initialized(
                old(self)@,
                final(self)@,
                container_id@,
                capabilities,
                metro_hash64(module@),
                outcome,
            ),
            loaded(
                old(self).engine,
                old(self).abi,
                module,
                load,
                final(self)@.registered[container_id@].module,
                outcome,
            ),
            outcome is Ok ==> final(self)@.templates.contains_key(metro_hash64(module@))
                && renewed(
                template_lifetimes(final(self).instance_pre_cache),
                metro_hash64(module@),
                old(self).ttl_secs,
            ),
            final(self).abi == old(self).abi,
            final(self).ttl_secs == old(self).ttl_secs,
            final(self).engine == old(self).engine,
    {
        let key = Self::content_key(module.as_slice());
        let ttl: u64 = self.ttl_secs as u64;
        match get_template(&mut self.instance_pre_cache, key) {
            Some(template) => {
                if !refresh_template(&mut self.instance_pre_cache, key, ttl) {
                    insert_template(&mut self.instance_pre_cache, key, template.duplicate(), ttl);
                }
                proof {
                    let before = old(self)@.templates;
                    assert(before.remove(key).insert(key, template) =~= before);
                }
                register(
                    &mut self.instance_pres,
                    container_id,
                    WasmAction { module: template, capabilities },
                );
                Ok(Prepared::Reused)
            },
            None => {
                let artifact = match load(&self.engine, &module) {
                    None => {
                        return Err(
                            RunError::new(
                                ErrorKind::ModuleDeserializeError,
                                "Error deserializing module",
                            ),
                        );
                    },
                    Some(artifact) => artifact,
                };
                let template = match prepare(&self.engine, self.abi, &artifact) {
                    Err(error) => {
                        return Err(error);
                    },
                    Ok(template) => template,
                };
                insert_template(&mut self.instance_pre_cache, key, template.duplicate(), ttl);
                let ghost made = template;
                register(
                    &mut self.instance_pres,
                    container_id,
                    WasmAction { module: template, capabilities },
                );
                proof {
                    let before = old(self)@;
                    assert(before.templates.remove(key).insert(key, made)
                        =~= before.templates.insert(key, made));
                    assert(self@ == before.with_template(key, made).with_action(
                        container_id@,
                        WasmAction { module: made, capabilities },
                    ));
                }
                Ok(Prepared::Fresh)
            },
        }
    }

    /// Removes the registration of `container_id`, if there is one, and says
    /// whether there was. The caches stay as they are: the template of the
    /// action remains cached until it expires.
    pub fn destroy(&mut self, container_id: &str) -> (existed: bool)
        ensures
            existed == old(self)@.registered.contains_key(container_id@),
            final(self)@ == old(self)@.without_action(container_id@),
            final(self).abi == old(self).abi,
            final(self).ttl_secs == old(self).ttl_secs,
            final(self).engine == old(self).engine,
    {
        unregister(&mut self.instance_pres, container_id)
    }

    /// The failure of an operation on a container id that is not registered.
    pub open spec fn spec_not_found(container_id: Seq<char>) -> Seq<char> {
        "No action named "@ + container_id
    }

    /// Another handle to the template that is registered under
    /// `container_id`; where nothing is registered under it, the failure
    /// that says so.
    pub fn template(&self, container_id: &str) -> (outcome: Result<Template, RunError>)
        ensures
            match outcome {
                Ok(template) => self@.registered.contains_key(container_id@)
                    && self@.registered[container_id@].module == template,
                Err(error) => !self@.registered.contains_key(container_id@) && error.kind
                    == ErrorKind::ContainerNotFound && error.message@ == Self::spec_not_found(
                    container_id@,
                ),
            },
    {
        match lookup(&self.instance_pres, container_id) {
            Some(action) => Ok(action.module),
            None => {
                let mut message: String = "No action named ".to_owned();
                message.append(container_id);
                Err(RunError { kind: ErrorKind::ContainerNotFound, message })
            },
        }
    }
}

/// A result with `value` attached under `key`: an object gets the field, and
/// `null` becomes an object with that one field; any other result can carry
/// no field.
pub open spec fn attached(result: JsonView, key: Seq<char>, value: JsonView) -> Option<JsonView> {
    match result {
        JsonView::Object(_) => Some(result.with_field(key, value)),
        JsonView::Null => Some(JsonView::Object(Map::empty().insert(key, value))),
        _ => None,
    }
}

/// Attaches `value` to a result under `key`; a marshalling error where the
/// result is neither an object nor `null`.
pub fn attach(result: Json, key: &str, value: Json) -> (outcome: Result<Json, RunError>)
    ensures
        match outcome {
            Ok(json) => attached(result@, key@, value@) == Some(json@),
            Err(error) => attached(result@, key@, value@) is None && error.kind
                == ErrorKind::MarshalError,
        },
{
    match result {
        Json::Object(_) => {
            let mut result = result;
            result.set(key.to_owned(), value);
            Ok(result)
        },
        Json::Null => {
            let mut object = Json::object();
            object.set(key.to_owned(), value);
            Ok(object)
        },
        _ => Err(RunError::new(ErrorKind::MarshalError, "the result is not an object")),
    }
}

/// Instantiates a template of a core module in a store of the template's
/// engine. A refusal of the engine counts as a trap of the guest. The guest
/// exports what the module of the template exports.
fn enter_in(template: &wasmtime::InstancePre<WasmCtx>, store: wasmtime::Store<WasmCtx>) -> (outcome:
    Result<Guest, RunError>)
    requires
        made_for(store, *template),
    ensures
        match outcome {
            Ok(guest) => exported_names(guest) == declared_exports(*template),
            Err(error) => error.kind == ErrorKind::GuestTrap,
        },
{
    match instantiate(template, store) {
        Err(error) => Err(engine_error(ErrorKind::GuestTrap, &error)),
        Ok(guest) => Ok(guest),
    }
}

/// Instantiates a template of a core module in a store of its own, made on
/// the template's engine, whose guest inherits the host's standard streams.
/// A refusal of the engine counts as a trap of the guest. The guest exports
/// what the module of the template exports.
pub fn enter(template: &wasmtime::InstancePre<WasmCtx>) -> (outcome: Result<Guest, RunError>)
    ensures
        match outcome {
            Ok(guest) => exported_names(guest) == declared_exports(*template),
            Err(error) => error.kind == ErrorKind::GuestTrap,
        },
{
    enter_in(template, create_store(template))
}

/// Calls the guest's entry point `_start`. A guest that exports nothing
/// under that name lacks an export; an entry point that does not return is a
/// trap. Whether an entry point returns is up to the guest.
pub fn start(guest: &mut Guest) -> (outcome: Result<(), RunError>)
    ensures
        exported_names(*final(guest)) == exported_names(*old(guest)),
        !exported_names(*old(guest)).contains("_start"@) ==> lacks(outcome, "_start"@),
        outcome matches Err(error) ==> (error.kind == ErrorKind::MissingExport && error.message@
            == missing_message("_start"@)) || error.kind == ErrorKind::GuestTrap,
{
    if !exports(guest, "_start") {
        return Err(missing_export("_start"));
    }
    match call_unit(guest, "_start") {
        Err(failure) => Err(call_error(failure, "_start")),
        Ok(()) => Ok(()),
    }
}

/// The guest exports that a calling convention needs.
pub open spec fn required_exports(abi: Abi) -> Set<Seq<char>> {
    match abi {
        Abi::Argv => set!["_start"@, "memory"@, "get_result_len"@, "get_result"@],
        Abi::Stdio => set!["_start"@],
        Abi::Memory => set![
            "memory"@,
            "set_input"@,
            "_start"@,
            "get_result_len"@,
            "get_result"@,
        ],
        Abi::MemoryNn => set![
            "memory"@,
            "set_input"@,
            "set_model"@,
            "_start"@,
            "get_result_len"@,
            "get_result"@,
        ],
        Abi::Component | Abi::ComponentNn => set!["func-wrapper"@],
    }
}

/// Whether a set of exports has all that a calling convention needs.
pub open spec fn complete(declared: Set<Seq<char>>, abi: Abi) -> bool {
    required_exports(abi).subset_of(declared)
}

/// Whether a failure is a missing export that names a symbol which the
/// calling convention needs and the exports lack.
pub open spec fn names_missing(declared: Set<Seq<char>>, abi: Abi, error: RunError) -> bool {
    error.kind == ErrorKind::MissingExport && exists|name: Seq<char>|
        required_exports(abi).contains(name) && !declared.contains(name) && error.message@
            == #[trigger] missing_message(name)
}

/// Looks one export up in the module of a template.
pub fn require(template: &wasmtime::InstancePre<WasmCtx>, name: &str) -> (outcome: Result<
    (),
    RunError,
>)
    ensures
        match outcome {
            Ok(()) => declared_exports(*template).contains(name@),
            Err(error) => !declared_exports(*template).contains(name@) && error.kind
                == ErrorKind::MissingExport && error.message@ == missing_message(name@),
        },
{
    if declares(template, name) {
        Ok(())
    } else {
        Err(missing_export(name))
    }
}

/// Looks up, in the module of a template, every export that a calling
/// convention for core modules needs, before any guest is made: where one is
/// lacking the failure names it.
pub fn require_exports(template: &wasmtime::InstancePre<WasmCtx>, abi: Abi) -> (outcome: Result<
    (),
    RunError,
>)
    requires
        !abi.spec_is_component(),
    ensures
        match outcome {
            Ok(()) => complete(declared_exports(*template), abi),
            Err(error) => !complete(declared_exports(*template), abi) && names_missing(
                declared_exports(*template),
                abi,
                error,
            ),
        },
{
    if !abi.uses_stdio() {
        require(template, "memory")?;
    }
    if abi.uses_slots() {
        require(template, "set_input")?;
    }
    if abi.uses_nn() {
        require(template, "set_model")?;
    }
    require(template, "_start")?;
    if !abi.uses_stdio() {
        require(template, "get_result_len")?;
        require(template, "get_result")?;
    }
    Ok(())
}

/// What holds of a result that was read from a guest's memory: it is the
/// JSON value of some bytes.
pub open spec fn from_guest_bytes(result: JsonView) -> bool {
    exists|bytes: Seq<u8>| #[trigger] decoded(bytes) == Some(result)
}

/// The kinds of failure that running a guest can end in.
pub open spec fn guest_failure(kind: ErrorKind) -> bool {
    kind == ErrorKind::MissingExport || kind == ErrorKind::GuestTrap || kind
        == ErrorKind::MarshalError
}

/// What holds of a run by a convention for core modules without a model. A
/// module that lacks an export that the convention needs is answered with a
/// missing export that names such a symbol, and no guest is made. Else the
/// guest decides, and the result is the JSON value of bytes that it handed
/// back.
pub open spec fn ran_plain(declared: Set<Seq<char>>, abi: Abi, outcome: Result<Json, RunError>) -> bool {
    if !complete(declared, abi) {
        outcome matches Err(error) && names_missing(declared, abi, error)
    } else {
        match outcome {
            Ok(result) => if abi == Abi::Stdio {
                exists|bytes: Seq<u8>| #[trigger] decoded_response(bytes) == Some(result@)
            } else {
                from_guest_bytes(result@)
            },
            Err(error) => guest_failure(error.kind),
        }
    }
}

/// Runs an action by the argv convention: the request's JSON text is the
/// guest's one argument, the entry point is called, and the result is read
/// from the guest's memory.
pub fn run_argv(template: &wasmtime::InstancePre<WasmCtx>, parameters: &Json) -> (outcome: Result<
    Json,
    RunError,
>)
    ensures
        ran_plain(declared_exports(*template), Abi::Argv, outcome),
{
    match require_exports(template, Abi::Argv) {
        Err(error) => {
            return Err(error);
        },
        Ok(()) => {},
    }
    let input = input_text(parameters);
    let store = create_store_with_argument(template, input.as_str());
    let mut guest = match enter_in(template, store) {
        Err(error) => {
            return Err(error);
        },
        Ok(guest) => guest,
    };
    match start(&mut guest) {
        Err(error) => {
            return Err(error);
        },
        Ok(()) => {},
    }
    match retrieve_result(&mut guest) {
        Err(error) => Err(error),
        Ok(result) => Ok(result),
    }
}

/// Runs an action by the stdio convention: the request's JSON text is piped
/// to the guest's standard input, the entry point is called, the store is
/// dropped, and the result is the field `response` of what the guest wrote
/// to its standard output.
pub fn run_stdio(template: &wasmtime::InstancePre<WasmCtx>, parameters: &Json) -> (outcome: Result<
    Json,
    RunError,
>)
    ensures
        ran_plain(declared_exports(*template), Abi::Stdio, outcome),
{
    match require_exports(template, Abi::Stdio) {
        Err(error) => {
            return Err(error);
        },
        Ok(()) => {},
    }
    let input = input_text(parameters);
    let (store, stdout) = create_store_with_pipes(template, input.as_str());
    let mut guest = match enter_in(template, store) {
        Err(error) => {
            return Err(error);
        },
        Ok(guest) => guest,
    };
    match start(&mut guest) {
        Err(error) => {
            return Err(error);
        },
        Ok(()) => {},
    }
    close(guest);
    match decode_output(pipe_contents(&stdout)) {
        Err(error) => Err(error),
        Ok(output) => Ok(output.response),
    }
}

/// Runs an action by the linear-memory convention: the request goes to the
/// slot that `set_input` answers with, the entry point is called, and the
/// result is read from the guest's memory.
pub fn run_memory(template: &wasmtime::InstancePre<WasmCtx>, parameters: &Json) -> (outcome: Result<
    Json,
    RunError,
>)
    ensures
        ran_plain(declared_exports(*template), Abi::Memory, outcome),
{
    match require_exports(template, Abi::Memory) {
        Err(error) => {
            return Err(error);
        },
        Ok(()) => {},
    }
    let mut guest = match enter(template) {
        Err(error) => {
            return Err(error);
        },
        Ok(guest) => guest,
    };
    match pass_input(&mut guest, parameters) {
        Err(error) => {
            return Err(error);
        },
        Ok(()) => {},
    }
    match start(&mut guest) {
        Err(error) => {
            return Err(error);
        },
        Ok(()) => {},
    }
    match retrieve_result(&mut guest) {
        Err(error) => Err(error),
        Ok(result) => Ok(result),
    }
}

/// The result that a component's answer stands for: the JSON value of the
/// answer's text, and `null` for an answer that is no string.
pub open spec fn component_result(answer: Option<Seq<char>>) -> Option<JsonView> {
    match answer {
        Some(text) => json_of_text(text),
        None => Some(JsonView::Null),
    }
}

/// The text of a component's answer.
pub open spec fn answer_text(answer: Option<String>) -> Option<Seq<char>> {
    match answer {
        Some(text) => Some(text@),
        None => None,
    }
}

/// The result that a component's answer stands for; a marshalling error
/// where the answer is a string that is no JSON.
pub fn decode_answer(answer: Option<String>) -> (outcome: Result<Json, RunError>)
    ensures
        match outcome {
            Ok(result) => component_result(answer_text(answer)) == Some(result@),
            Err(error) => answer matches Some(text) && json_of_text(text@) is None && error.kind
                == ErrorKind::MarshalError,
        },
{
    match answer {
        None => Ok(Json::Null),
        Some(text) => match parse_text(text.as_str()) {
            Some(result) => Ok(result),
            None => Err(RunError::new(ErrorKind::MarshalError, "the answer is not JSON")),
        },
    }
}

/// Whether a failure says that a component lacks the export `func-wrapper`.
pub open spec fn lacks_wrapper(outcome: Result<Json, RunError>) -> bool {
    outcome matches Err(error) && error.kind == ErrorKind::MissingExport && error.message@
        == missing_message("func-wrapper"@)
}

/// Hands the request's text to the export `func-wrapper` of a component
/// that was made from the template, in a store of the template's engine, and
/// reads the string that it answers with as JSON.
fn call_wrapper(
    template: &wasmtime::component::InstancePre<MyState>,
    parameters: &Json,
) -> (outcome: Result<Json, RunError>)
    requires
        declared_component_exports(*template).contains("func-wrapper"@),
    ensures
        match outcome {
            Ok(result) => exists|answer: Option<Seq<char>>|
                #[trigger] component_result(answer) == Some(result@),
            Err(error) => guest_failure(error.kind),
        },
{
    let store = create_component_store(template);
    let mut guest = match instantiate_component(template, store) {
        Err(error) => {
            return Err(engine_error(ErrorKind::GuestTrap, &error));
        },
        Ok(guest) => guest,
    };
    let input = input_text(parameters);
    match call_text_function(&mut guest, "func-wrapper", input) {
        Err(failure) => Err(call_error(failure, "func-wrapper")),
        Ok(answer) => {
            let ghost text = answer_text(answer);
            let outcome = decode_answer(answer);
            proof {
                if outcome is Ok {
                    assert(component_result(text) == Some(outcome->Ok_0@));
                }
            }
            outcome
        },
    }
}

/// Runs an action by the component convention: the component is
/// instantiated in a store of the engine that its template was made with,
/// its export `func-wrapper` is called with the request's JSON text, and the
/// string that it answers with is read as JSON. A component that exports
/// nothing under `func-wrapper` lacks an export, and is not instantiated.
pub fn run_component(
    template: &wasmtime::component::InstancePre<MyState>,
    parameters: &Json,
) -> (outcome: Result<Json, RunError>)
    ensures
        !declared_component_exports(*template).contains("func-wrapper"@) ==> lacks_wrapper(
            outcome,
        ),
        declared_component_exports(*template).contains("func-wrapper"@) ==> match outcome {
            Ok(result) => exists|answer: Option<Seq<char>>|
                #[trigger] component_result(answer) == Some(result@),
            Err(error) => guest_failure(error.kind),
        },
{
    if !component_declares(template, "func-wrapper") {
        return Err(missing_export("func-wrapper"));
    }
    call_wrapper(template, parameters)
}

/// Whether `fetch` was asked for the model at `address` and the request
/// ended in `outcome`.
pub open spec fn model_asked<F: Fn(FetchRequest) -> Result<Vec<Vec<u8>>, RunError>>(
    fetch: F,
    address: Seq<char>,
    outcome: Result<Vec<u8>, RunError>,
) -> bool {
    exists|url: String|
        #![trigger url@]
        url@ == address && fetched_one(fetch, FetchRequest::Model(url), outcome)
}

/// Whether a failure is the bad request with the given message.
pub open spec fn bad_request(outcome: Result<Json, RunError>, message: Seq<char>) -> bool {
    outcome matches Err(error) && error.kind == ErrorKind::BadRequest && error.message@ == message
}

/// What holds of a run by the component convention with a model. A
/// component without `func-wrapper` lacks an export; a request without a
/// string under `model` is a bad request, and so is one whose field `image`
/// is neither a string nor a list of strings; in all these cases nothing is
/// fetched and no guest is made. Else `fetch` and the guest decide: `fetch`
/// is asked for the model, and where it brought it, for the image or images;
/// a failure of `fetch` is the failure of the run; where both were brought,
/// the guest is called with the request that holds them as Base64.
pub open spec fn ran_component_nn<F: Fn(FetchRequest) -> Result<Vec<Vec<u8>>, RunError>>(
    declared: Set<Seq<char>>,
    parameters: JsonView,
    outcome: Result<Json, RunError>,
    fetch: F,
) -> bool {
    if !declared.contains("func-wrapper"@) {
        lacks_wrapper(outcome)
    } else {
        match spec_model_address(parameters) {
            Err(message) => bad_request(outcome, message),
            Ok(_) => match spec_image_field(parameters) {
                ImageField::Invalid(message) => bad_request(outcome, message),
                _ => match outcome {
                    Ok(result) => (exists|answer: Option<Seq<char>>|
                        #[trigger] component_result(answer) == Some(result@)) && exists|
                        with_model: JsonView,
                        with_images: JsonView,
                    |
                        #![trigger image_replaced(with_model, with_images, Ok(()), fetch)]
                        model_replaced(parameters, with_model, Ok(()), fetch) && image_replaced(
                            with_model,
                            with_images,
                            Ok(()),
                            fetch,
                        ),
                    Err(error) => {
                        ||| model_replaced(parameters, parameters, Err(error), fetch)
                        ||| exists|with_model: JsonView|
                            #![trigger image_replaced(with_model, with_model, Err(error), fetch)]
                            model_replaced(parameters, with_model, Ok(()), fetch)
                                && image_replaced(with_model, with_model, Err(error), fetch)
                        ||| guest_failure(error.kind)
                    },
                },
            },
        }
    }
}

/// Runs an action by the component convention with a model: the model and
/// the image or images that the request names by address are asked of
/// `fetch` and written into the request as Base64; the component is
/// instantiated; its export `func-wrapper` is called with the request's JSON
/// text, and the string that it answers with is read as JSON.
///
/// A failure of `fetch` is handed on as it is.
pub fn run_component_nn<F>(
    template: &wasmtime::component::InstancePre<MyState>,
    parameters: Json,
    fetch: &F,
) -> (outcome: Result<Json, RunError>) where F: Fn(FetchRequest) -> Result<Vec<Vec<u8>>, RunError>
    requires
        forall|request: FetchRequest| fetch.requires((request,)),
    ensures
        ran_component_nn(
            declared_component_exports(*template),
            parameters@,
            outcome,
            *fetch,
        ),
{
    let mut parameters = parameters;
    if !component_declares(template, "func-wrapper") {
        return Err(missing_export("func-wrapper"));
    }
    match model_address(&parameters) {
        Err(error) => {
            return Err(error);
        },
        Ok(_) => {},
    }
    match image_field(&parameters) {
        Err(error) => {
            return Err(error);
        },
        Ok(_) => {},
    }
    let ghost before = parameters@;
    match replace_model_url(&mut parameters, fetch) {
        Err(error) => {
            assert(parameters@ == before);
            assert(model_replaced(before, before, Err(error), *fetch));
            return Err(error);
        },
        Ok(()) => {},
    }
    let ghost with_model = parameters@;
    assert(model_replaced(before, with_model, Ok(()), *fetch));
    match replace_image_urls(&mut parameters, fetch) {
        Err(error) => {
            assert(parameters@ == with_model);
            assert(image_replaced(with_model, with_model, Err(error), *fetch));
            return Err(error);
        },
        Ok(()) => {},
    }
    let ghost with_images = parameters@;
    assert(image_replaced(with_model, with_images, Ok(()), *fetch));
    match call_wrapper(template, &parameters) {
        Err(error) => Err(error),
        Ok(result) => Ok(result),
    }
}

/// The metrics that the executor attaches to the result of an invocation
/// with a model: the time spent on replacing the images and the time spent
/// on passing the model, both in seconds.
pub open spec fn executor_metrics(images: Span, model: Span) -> JsonView {
    JsonView::Object(
        Map::empty().insert("download_images_time"@, span_number(images)).insert(
            "pass_model_time"@,
            span_number(model),
        ),
    )
}

/// What holds of the result of an invocation with a model: it is what the
/// guest answered, with the executor's metrics attached to it under
/// `executor_metrics`.
pub open spec fn measured(result: JsonView) -> bool {
    exists|raw: JsonView, images: Span, model: Span|
        from_guest_bytes(raw) && #[trigger] attached(
            raw,
            "executor_metrics"@,
            executor_metrics(images, model),
        ) == Some(result)
}

/// What holds of a run with a model once the images of the request are
/// replaced: `fetch` was asked for the model at `address`, and its failure
/// is the failure of the run; else the guest decides, and its result has the
/// executor's metrics attached.
pub open spec fn served_with_model<F: Fn(FetchRequest) -> Result<Vec<Vec<u8>>, RunError>>(
    address: Seq<char>,
    outcome: Result<Json, RunError>,
    fetch: F,
) -> bool {
    match outcome {
        Ok(result) => measured(result@) && exists|model: Vec<u8>|
            #[trigger] model_asked(fetch, address, Ok(model)),
        Err(error) => model_asked(fetch, address, Err(error)) || guest_failure(error.kind),
    }
}

/// What holds of a run by the linear-memory convention with a model. Before
/// anything is fetched and before any guest is made: a module that lacks an
/// export that the convention needs is answered with a missing export that
/// names such a symbol; a request whose images are to be replaced and whose
/// list of addresses is none, or holds an S3 address without bucket and key,
/// is a bad request; so is a request without a string under `model`. Else
/// `fetch` and the guest decide: `fetch` is asked for the images as the
/// field `replace_images` says, and for the model at the address under
/// `model`; a failure of `fetch` is the failure of the run.
pub open spec fn ran_memory_nn<F: Fn(FetchRequest) -> Result<Vec<Vec<u8>>, RunError>>(
    declared: Set<Seq<char>>,
    parameters: JsonView,
    outcome: Result<Json, RunError>,
    fetch: F,
) -> bool {
    if !complete(declared, Abi::MemoryNn) {
        outcome matches Err(error) && names_missing(declared, Abi::MemoryNn, error)
    } else {
        match image_fault(parameters) {
            Some(message) => bad_request(outcome, message),
            None => match spec_model_address(parameters) {
                Err(message) => bad_request(outcome, message),
                Ok(address) => {
                    ||| outcome matches Err(error) && images_handled(
                        parameters,
                        parameters,
                        Err(error),
                        fetch,
                    )
                    ||| (exists|with_images: JsonView|
                        #[trigger] images_handled(parameters, with_images, Ok(()), fetch))
                        && served_with_model(address, outcome, fetch)
                },
            },
        }
    }
}

/// Enters a guest of the linear-memory convention with a model, passes it
/// the request, asks `fetch` for the model at `address` and passes it that,
/// calls the entry point, and reads the result, to which the executor's
/// metrics are attached.
fn serve_with_model<F>(
    template: &wasmtime::InstancePre<WasmCtx>,
    parameters: &Json,
    address: String,
    images_time: Span,
    fetch: &F,
) -> (outcome: Result<Json, RunError>) where F: Fn(FetchRequest) -> Result<Vec<Vec<u8>>, RunError>
    requires
        forall|request: FetchRequest| fetch.requires((request,)),
    ensures
        served_with_model(address@, outcome, *fetch),
{
    let mut guest = match enter(template) {
        Err(error) => {
            return Err(error);
        },
        Ok(guest) => guest,
    };
    match pass_input(&mut guest, parameters) {
        Err(error) => {
            return Err(error);
        },
        Ok(()) => {},
    }
    let ghost url = address;
    let model_timer = now();
    let model = match fetch_one(fetch, FetchRequest::Model(address)) {
        Err(error) => {
            assert(fetched_one(*fetch, FetchRequest::Model(url), Err(error)));
            return Err(error);
        },
        Ok(model) => model,
    };
    assert(fetched_one(*fetch, FetchRequest::Model(url), Ok(model)));
    assert(model_asked(*fetch, url@, Ok(model)));
    match pass_model(&mut guest, model.as_slice()) {
        Err(error) => {
            return Err(error);
        },
        Ok(()) => {},
    }
    let model_time = elapsed(&model_timer);
    match start(&mut guest) {
        Err(error) => {
            return Err(error);
        },
        Ok(()) => {},
    }
    let raw = match retrieve_result(&mut guest) {
        Err(error) => {
            return Err(error);
        },
        Ok(raw) => raw,
    };
    let mut metrics = Json::object();
    metrics.set("download_images_time".to_owned(), seconds_json(images_time));
    metrics.set("pass_model_time".to_owned(), seconds_json(model_time));
    let outcome = attach(raw, "executor_metrics", metrics);
    proof {
        if outcome is Ok {
            assert(attached(raw@, "executor_metrics"@, executor_metrics(images_time, model_time))
                == Some(outcome->Ok_0@));
            assert(measured(outcome->Ok_0@));
        }
    }
    outcome
}

/// Runs an action by the linear-memory convention with a model. The images
/// of the request are replaced as its field `replace_images` says; the
/// request goes to the slot that `set_input` answers with; the model named by
/// the field `model` is asked of `fetch` and goes to the slot that `set_model`
/// answers with; the entry point is called; the result is read from the
/// guest's memory and gets the executor's metrics attached.
///
/// A failure of `fetch` is handed on as it is.
pub fn run_memory_nn<F>(
    template: &wasmtime::InstancePre<WasmCtx>,
    parameters: Json,
    fetch: &F,
) -> (outcome: Result<Json, RunError>) where F: Fn(FetchRequest) -> Result<Vec<Vec<u8>>, RunError>
    requires
        forall|request: FetchRequest| fetch.requires((request,)),
    ensures
        ran_memory_nn(declared_exports(*template), parameters@, outcome, *fetch),
{
    let mut parameters = parameters;
    match require_exports(template, Abi::MemoryNn) {
        Err(error) => {
            return Err(error);
        },
        Ok(()) => {},
    }
    match check_images(&parameters) {
        Err(error) => {
            return Err(error);
        },
        Ok(()) => {},
    }
    let address = match model_address(&parameters) {
        Err(error) => {
            return Err(error);
        },
        Ok(address) => address,
    };
    let ghost before = parameters@;
    let images_timer = now();
    match handle_replace_images(&mut parameters, fetch) {
        Err(error) => {
            assert(parameters@ == before);
            assert(images_handled(before, before, Err(error), *fetch));
            return Err(error);
        },
        Ok(()) => {},
    }
    assert(images_handled(before, parameters@, Ok(()), *fetch));
    let images_time = elapsed(&images_timer);
    serve_with_model(template, &parameters, address, images_time, fetch)
}

/// What holds of the outcome of running a registered action, by calling
/// convention and kind of template. A template that is not of the kind that
/// the convention runs is a linker error.
pub open spec fn ran<F: Fn(FetchRequest) -> Result<Vec<Vec<u8>>, RunError>>(
    abi: Abi,
    template: Template,
    parameters: JsonView,
    outcome: Result<Json, RunError>,
    fetch: F,
) -> bool {
    match template {
        Template::Module(module) => match abi {
            Abi::Argv | Abi::Stdio | Abi::Memory => ran_plain(
                declared_exports(module),
                abi,
                outcome,
            ),
            Abi::MemoryNn => ran_memory_nn(declared_exports(module), parameters, outcome, fetch),
            Abi::Component | Abi::ComponentNn => outcome matches Err(error) && error.kind
                == ErrorKind::LinkerError,
        },
        Template::Component(component) => match abi {
            Abi::Component => {
                let declared = declared_component_exports(component);
                if !declared.contains("func-wrapper"@) {
                    lacks_wrapper(outcome)
                } else {
                    match outcome {
                        Ok(result) => exists|answer: Option<Seq<char>>|
                            #[trigger] component_result(answer) == Some(result@),
                        Err(error) => guest_failure(error.kind),
                    }
                }
            },
            Abi::ComponentNn => ran_component_nn(
                declared_component_exports(component),
                parameters,
                outcome,
                fetch,
            ),
            _ => outcome matches Err(error) && error.kind == ErrorKind::LinkerError,
        },
    }
}

impl Wasmtime {
    /// Invokes the action registered under `container_id` with `parameters`
    /// by the runtime's calling convention, in a store of its own that does
    /// not outlive the call. The runtime itself stays as it is.
    ///
    /// An id under which nothing is registered is answered with
    /// `ContainerNotFound`, and nothing else happens. A template that is not
    /// of the kind that the convention runs is a linker error. An action
    /// that lacks an export that the convention needs is answered with a
    /// missing export, and a request that a convention with a model cannot
    /// serve with a bad request, before anything is fetched or any guest is
    /// made. Else the guest decides the outcome. Only the conventions with a
    /// model ask anything of `fetch`.
    pub fn run<F>(&self, container_id: &str, parameters: Json, fetch: &F) -> (outcome: Result<
        Json,
        RunError,
    >) where F: Fn(FetchRequest) -> Result<Vec<Vec<u8>>, RunError>
        requires
            self.abi.spec_uses_nn() && self@.registered.contains_key(container_id@)
                ==> forall|request: FetchRequest| fetch.requires((request,)),
        ensures
            !self@.registered.contains_key(container_id@) ==> (outcome matches Err(error)
                && error.kind == ErrorKind::ContainerNotFound && error.message@
                == Self::spec_not_found(container_id@)),
            self@.registered.contains_key(container_id@) ==> ran(
                self.abi,
                self@.registered[container_id@].module,
                parameters@,
                outcome,
                *fetch,
            ),
    {
        let template = match self.template(container_id) {
            Err(error) => {
                return Err(error);
            },
            Ok(template) => template,
        };
        match template {
            Template::Module(module) => match self.abi {
                Abi::Argv => run_argv(&module, &parameters),
                Abi::Stdio => run_stdio(&module, &parameters),
                Abi::Memory => run_memory(&module, &parameters),
                Abi::MemoryNn => run_memory_nn(&module, parameters, fetch),
                Abi::Component | Abi::ComponentNn => Err(
                    RunError::new(
                        ErrorKind::LinkerError,
                        "the registered template is no component",
                    ),
                ),
            },
            Template::Component(component) => match self.abi {
                Abi::Component => run_component(&component, &parameters),
                Abi::ComponentNn => run_component_nn(&component, parameters, fetch),
                _ => Err(
                    RunError::new(ErrorKind::LinkerError, "the registered template is a component"),
                ),
            },
        }
    }
}

impl Default for Wasmtime {
    /// The runtime of the linear-memory convention, with entries that live
    /// for 60 seconds.
    fn default() -> (runtime: Wasmtime)
        ensures
            runtime.abi == Abi::Memory,
            runtime.ttl_secs == 60,
            runtime@ == RuntimeView::empty(),
    {
        Wasmtime::new(Abi::Memory)
    }
}

/// Two registrations of the same compiled bytes share one template: where
/// the first `initialize` made the template and the second found it in the
/// cache, both container ids are bound to the template that the first call
/// made, and the second call made none.
pub proof fn lemma_template_reused(
    start: RuntimeView,
    between: RuntimeView,
    end: RuntimeView,
    first_id: Seq<char>,
    first_capabilities: ActionCapabilities,
    second_id: Seq<char>,
    second_capabilities: ActionCapabilities,
    key: u64,
)
    requires
        initialized(start, between, first_id, first_capabilities, key, Ok(Prepared::Fresh)),
        initialized(between, end, second_id, second_capabilities, key, Ok(Prepared::Reused)),
    ensures
        end.registered.contains_key(first_id),
        end.registered.contains_key(second_id),
        end.registered[first_id].module == end.registered[second_id].module,
        end.registered[second_id].module == between.templates[key],
        end.templates.contains_key(key) ==> end.templates[key] == between.templates[key],
{
}

/// Destroying twice is destroying once: after `destroy`, the container id is
/// bound to nothing, a second `destroy` changes nothing, and `run` on the id
/// fails with `ContainerNotFound`.
pub proof fn lemma_destroy_idempotent(state: RuntimeView, container_id: Seq<char>)
    ensures
        !state.without_action(container_id).registered.contains_key(container_id),
        state.without_action(container_id).without_action(container_id) == state.without_action(
            container_id,
        ),
{
    assert(state.registered.remove(container_id).remove(container_id) =~= state.registered.remove(
        container_id,
    ));
}

/// An action that lacks an export that its calling convention needs cannot
/// be run: a run of it fails with a missing export, whatever the request
/// holds.
pub proof fn lemma_run_needs_exports<F: Fn(FetchRequest) -> Result<Vec<Vec<u8>>, RunError>>(
    abi: Abi,
    template: Template,
    parameters: JsonView,
    outcome: Result<Json, RunError>,
    fetch: F,
    name: Seq<char>,
)
    requires
        ran(abi, template, parameters, outcome, fetch),
        required_exports(abi).contains(name),
        match template {
            Template::Module(module) => !abi.spec_is_component() && !declared_exports(
                module,
            ).contains(name),
            Template::Component(component) => abi.spec_is_component()
                && !declared_component_exports(component).contains(name),
        },
    ensures
        outcome matches Err(error) && error.kind == ErrorKind::MissingExport,
{
}

/// A run with a model whose request asks for its images to be replaced from
/// HTTP addresses, and holds no list of them, fails as a bad request that
/// names the fault of the field `image_urls`.
pub proof fn lemma_run_needs_image_urls<F: Fn(FetchRequest) -> Result<Vec<Vec<u8>>, RunError>>(
    module: wasmtime::InstancePre<WasmCtx>,
    parameters: JsonView,
    outcome: Result<Json, RunError>,
    fetch: F,
    fault: AddressFault,
)
    requires
        ran(Abi::MemoryNn, Template::Module(module), parameters, outcome, fetch),
        complete(declared_exports(module), Abi::MemoryNn),
        spec_replacement(parameters) == Replacement::Url,
        spec_addresses(parameters, "image_urls"@) == Err::<Seq<Seq<char>>, AddressFault>(fault),
    ensures
        bad_request(outcome, fault_message("image_urls"@, fault)),
{
}

/// A run with a model whose request asks for its images to be replaced from
/// S3 fails as a bad request where the field `image_uris` holds no list of
/// addresses, with a message that names the fault, and where one of the
/// addresses has no bucket and key.
pub proof fn lemma_run_needs_image_uris<F: Fn(FetchRequest) -> Result<Vec<Vec<u8>>, RunError>>(
    module: wasmtime::InstancePre<WasmCtx>,
    parameters: JsonView,
    outcome: Result<Json, RunError>,
    fetch: F,
)
    requires
        ran(Abi::MemoryNn, Template::Module(module), parameters, outcome, fetch),
        complete(declared_exports(module), Abi::MemoryNn),
        spec_replacement(parameters) == Replacement::S3,
    ensures
        spec_addresses(parameters, "image_uris"@) matches Err(fault) ==> bad_request(
            outcome,
            fault_message("image_uris"@, fault),
        ),
        spec_addresses(parameters, "image_uris"@) matches Ok(uris) ==> (spec_objects(uris) is None
            ==> bad_request(outcome, "Invalid S3 URL format"@)),
{
}

} // verus!
