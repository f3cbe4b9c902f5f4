//! A host for sandboxed computation modules.
//!
//! A directory of compiled modules is loaded once into a registry. Each
//! request names an endpoint and a protection variant; the two select a
//! module, which is run once in a fresh execution context under fixed
//! limits. The module reports one result through a slot that belongs to the
//! run alone, and the request is answered with that result or with the fault
//! that kept it from coming.
//!
//! - [`variant`]: protection variants and the names of artifacts
//! - [`service_directory`]: the registry of loaded modules
//! - [`limits`]: the resource limits of an execution context
//! - [`wasm_module`]: building an execution context
//! - [`bridge`]: the result slot and the callbacks that fill it
//! - [`orchestrator`]: the phases of a request and its classification
//! - [`endpoints`]: the operations that the service offers
//! - [`fault`]: the failures of the service
//! - [`text`], [`engine`]: what is taken for granted of other crates

pub mod bridge;
pub mod endpoints;
pub mod engine;
pub mod fault;
pub mod limits;
pub mod orchestrator;
pub mod service_directory;
pub mod text;
pub mod variant;
pub mod wasm_module;
