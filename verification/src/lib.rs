//! The core of an executor that hosts actions compiled to WebAssembly:
//! actions are registered under a container id, invoked with a JSON request
//! by one of several calling conventions, and deregistered again. Prepared
//! templates and model bytes are cached with a time to live.

pub mod action;
pub mod assets;
pub mod cache;
pub mod classify;
pub mod clock;
pub mod dispatch;
pub mod engine;
pub mod error;
pub mod json;
pub mod marshal;
pub mod models;
pub mod precompile;
pub mod registry;
pub mod routes;
pub mod runtime;
