//! What a registration holds: the prepared template of the action's code and
//! the capabilities that the client declared for it.

use vstd::prelude::*;
use crate::engine::{MyState, WasmCtx};

verus! {

/// `wasmtime::component::Component`, opaque here: the library carries it and never looks inside.
#[verifier::external_type_specification]
#[verifier::external_body]
pub struct ExComponent(wasmtime::component::Component);

/// `wasmtime::component::InstancePre`, opaque here: the library carries it and never looks inside.
#[verifier::external_type_specification]
#[verifier::external_body]
#[verifier::reject_recursive_types(T)]
pub struct ExComponentInstancePre<T: 'static>(wasmtime::component::InstancePre<T>);

/// `Clone` for the template of a core module: the copy stands for the same
/// template, which its source builds from copies of every part.
pub assume_specification<T>[ <wasmtime::InstancePre<T> as Clone>::clone ](
    template: &wasmtime::InstancePre<T>,
) -> (copy: wasmtime::InstancePre<T>)
    ensures
        copy == *template,
;

/// `Clone` for the template of a component: the copy stands for the same
/// template, which its source builds from copies of every part.
pub assume_specification<T: 'static>[ <wasmtime::component::InstancePre<T> as Clone>::clone ](
    template: &wasmtime::component::InstancePre<T>,
) -> (copy: wasmtime::component::InstancePre<T>)
    ensures
        copy == *template,
;

/// The permissions and resources that a client declares when it registers an
/// action.
#[derive(Clone, Debug)]
pub struct ActionCapabilities {
    /// A directory of the host that the action may open.
    pub dir: Option<String>,
}

/// A registered action: its prepared code and its capabilities.
#[derive(Clone)]
pub struct WasmAction<M> {
    pub module: M,
    pub capabilities: ActionCapabilities,
}

/// A prepared instance template: a deserialized artifact with its host
/// imports resolved, ready to be instantiated into a fresh store. It is
/// never changed after it was made.
#[derive(Clone)]
pub enum Template {
    /// The template of a core module.
    Module(wasmtime::InstancePre<WasmCtx>),
    /// The template of a component.
    Component(wasmtime::component::InstancePre<MyState>),
}

/// What the engine made of the compiled bytes of an action, before its
/// imports are resolved.
pub enum Artifact {
    /// A core module.
    Module(wasmtime::Module),
    /// A component.
    Component(wasmtime::component::Component),
}

impl ActionCapabilities {
    /// A copy of the capabilities.
    pub fn duplicate(&self) -> (copy: ActionCapabilities)
        ensures
            copy == *self,
    {
        match &self.dir {
            Some(dir) => ActionCapabilities { dir: Some(dir.clone()) },
            None => ActionCapabilities { dir: None },
        }
    }
}

impl Template {
    /// Another handle to the same template.
    pub fn duplicate(&self) -> (copy: Template)
        ensures
            copy == *self,
    {
        match self {
            Template::Module(template) => Template::Module(template.clone()),
            Template::Component(template) => Template::Component(template.clone()),
        }
    }
}

} // verus!
