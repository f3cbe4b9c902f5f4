//! The sandbox engine, as far as this library calls it.
//!
//! Nothing in this file is proved: each item states what the library takes
//! for granted of a function that another crate provides.

use crate::bridge::{Reported, ResultSlot};
use crate::limits::{limits_fit, ResourceLimits};
use crate::orchestrator::RunOutcome;
use std::sync::Arc;
use vstd::prelude::*;

verus! {

#[verifier::external_type_specification]
#[verifier::external_body]
pub struct ExDlModule(lucet_runtime::DlModule);

#[verifier::external_type_specification]
#[verifier::external_body]
pub struct ExEngineError(lucet_runtime::Error);

#[verifier::external_type_specification]
#[verifier::external_body]
pub struct ExInstanceHandle(lucet_runtime::InstanceHandle);

#[verifier::external_type_specification]
#[verifier::external_body]
pub struct ExMmapRegion(lucet_runtime::MmapRegion);

#[verifier::external_type_specification]
#[verifier::external_body]
pub struct ExWasiCtx(lucet_wasi::WasiCtx);

#[verifier::external_type_specification]
#[verifier::external_body]
pub struct ExWasiCtxBuilder(lucet_wasi::WasiCtxBuilder);

#[verifier::external_type_specification]
#[verifier::external_body]
pub struct ExWasiError(lucet_wasi::Error);

/// `DlModule::load` reads the shared object at `path` and hands out the
/// module in it, or says why it could not. Nothing is claimed of which of
/// the two happens: that depends on the file.
#[verifier::external_body]
pub(crate) fn load_module(path: &str) -> (loaded: Result<
    Arc<lucet_runtime::DlModule>,
    lucet_runtime::Error,
>) {
    lucet_runtime::DlModule::load(path)
}

/// `Arc::clone` makes another pointer to the same value.
#[verifier::external_body]
pub(crate) fn share<T>(handle: &Arc<T>) -> (shared: Arc<T>)
    ensures
        shared == *handle,
{
    Arc::clone(handle)
}

/// `Module::initial_globals_size` gives the bytes that the module's globals
/// take at the start. Nothing is claimed of the number.
#[verifier::external_body]
pub(crate) fn declared_globals_size(module: &Arc<lucet_runtime::DlModule>) -> (size: usize) {
    lucet_runtime::Module::initial_globals_size(module.as_ref())
}

/// `WasiCtxBuilder::new` starts the description of a system-interface
/// context.
#[verifier::external_body]
pub(crate) fn wasi_builder() -> (builder: lucet_wasi::WasiCtxBuilder) {
    lucet_wasi::WasiCtxBuilder::new()
}

/// `WasiCtxBuilder::args` makes `args` the argument list of the context.
#[verifier::external_body]
pub(crate) fn wasi_with_args(builder: lucet_wasi::WasiCtxBuilder, args: &Vec<String>) -> (with_args:
    lucet_wasi::WasiCtxBuilder) {
    builder.args(args.iter())
}

/// `wasi_common::preopen_dir` opens the directory at `path` on this machine,
/// and `WasiCtxBuilder::preopened_dir` grants it to the context under the
/// same path. `None` comes back where the directory could not be opened; the
/// builder is spent then. The two calls share this item, so that the open
/// directory goes from the one to the other and nowhere else.
#[verifier::external_body]
pub(crate) fn wasi_with_dir(builder: lucet_wasi::WasiCtxBuilder, path: &str) -> (with_dir: Option<
    lucet_wasi::WasiCtxBuilder,
>) {
    match wasi_common::preopen_dir(path) {
        Ok(dir) => Some(builder.preopened_dir(dir, path)),
        Err(_) => None,
    }
}

/// `WasiCtxBuilder::build` makes the context, or says why it could not.
#[verifier::external_body]
pub(crate) fn wasi_build(builder: lucet_wasi::WasiCtxBuilder) -> (built: Result<
    lucet_wasi::WasiCtx,
    lucet_wasi::Error,
>) {
    builder.build()
}

/// `MmapRegion::create` reserves memory for `instances` instances under the
/// limits, or says why it could not. The engine adds up the sizes in a
/// `usize` and stops the process where the sum does not fit; `limits_fit`
/// leaves those limits out. The signal stack keeps its default size.
#[verifier::external_body]
pub(crate) fn create_region(instances: usize, limits: &ResourceLimits) -> (region: Result<
    Arc<lucet_runtime::MmapRegion>,
    lucet_runtime::Error,
>)
    requires
        0 < instances <= 16,
        limits_fit(*limits),
{
    let engine_limits = lucet_runtime::Limits {
        heap_memory_size: limits.heap_memory_size as usize,
        heap_address_space_size: limits.heap_address_space_size as usize,
        stack_size: limits.stack_size as usize,
        globals_size: limits.globals_size as usize,
        ..lucet_runtime::Limits::default()
    };
    lucet_runtime::MmapRegion::create(instances, &engine_limits)
}

/// `Region::new_instance_builder`, `InstanceBuilder::with_embed_ctx` and
/// `InstanceBuilder::build` make an instance of `module` in `region` that
/// carries the system-interface context and the variant tag, or say why they
/// could not.
#[verifier::external_body]
pub(crate) fn build_instance(
    region: &Arc<lucet_runtime::MmapRegion>,
    module: Arc<lucet_runtime::DlModule>,
    wasi: lucet_wasi::WasiCtx,
    tag: String,
) -> (instance: Result<lucet_runtime::InstanceHandle, lucet_runtime::Error>) {
    lucet_runtime::Region::new_instance_builder(region.as_ref(), module)
        .with_embed_ctx(wasi)
        .with_embed_ctx(tag)
        .build()
}

/// `Instance::insert_embed_ctx` puts the slot into the instance, where the
/// result callbacks find it; a slot that was there before is dropped. Only
/// an empty slot is handed over: a run begins with nothing reported.
#[verifier::external_body]
pub(crate) fn install_slot(instance: &mut lucet_runtime::InstanceHandle, slot: ResultSlot)
    requires
        slot@ == Reported::Absent,
{
    instance.insert_embed_ctx(slot);
}

/// `Instance::run` runs the module's entry point to its end, which may never
/// come. Of the three ways in which it ends nothing is claimed but that it is
/// one of them; an error of the engine counts as a trap.
#[verifier::external_body]
pub(crate) fn run_entry_point(instance: &mut lucet_runtime::InstanceHandle) -> (outcome:
    RunOutcome) {
    match instance.run(lucet_wasi::START_SYMBOL, &[]) {
        Ok(lucet_runtime::RunResult::Returned(_)) => RunOutcome::Returned,
        Ok(lucet_runtime::RunResult::Yielded(_)) => RunOutcome::Yielded,
        Err(_) => RunOutcome::Trapped,
    }
}

/// `Instance::remove_embed_ctx` takes the slot out of the instance again, if
/// one is there. Nothing is claimed of what it holds: that is up to the
/// module that ran.
#[verifier::external_body]
pub(crate) fn collect_slot(instance: &mut lucet_runtime::InstanceHandle) -> (slot: Option<
    ResultSlot,
>) {
    instance.remove_embed_ctx::<ResultSlot>()
}

/// `lucet_internal_ensure_linked` touches the engine's own callbacks, so that
/// the linker keeps them.
pub assume_specification[ lucet_runtime::lucet_internal_ensure_linked ]();

/// `export_wasi_funcs` touches the callbacks of the system interface, so that
/// the linker keeps them.
pub assume_specification[ lucet_wasi::export_wasi_funcs ]();

} // verus!
