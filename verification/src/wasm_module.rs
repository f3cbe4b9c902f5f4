//! Execution contexts: one per request, bound to one module.

use crate::engine::{
    build_instance, create_region, declared_globals_size, share, wasi_build, wasi_builder,
    wasi_with_args, wasi_with_dir,
};
use crate::fault::Fault;
use crate::limits::{
    check_limits_fit, compute_limits, limits_fit, limits_for, ResourceLimits, MAX_GLOBALS_FOOTPRINT,
};
use crate::service_directory::{artifact_path, load_randomized, lookup_in, ModuleRegistry};
use crate::variant::{artifact_file_name, artifact_file_of, artifact_name, artifact_name_of};
use std::sync::Arc;
use vstd::prelude::*;

verus! {

/// The limits under which a module with that declared globals footprint
/// runs, where there are any.
pub open spec fn context_limits_of(declared: nat) -> Option<ResourceLimits> {
    if 0 < declared <= MAX_GLOBALS_FOOTPRINT && limits_fit(limits_for(declared)) {
        Some(limits_for(declared))
    } else {
        None
    }
}

/// Builds the limits of an execution context from the globals footprint that
/// its module declares. A footprint of zero or above the bound is refused,
/// and so are limits that this machine cannot address.
pub fn context_limits(declared: usize) -> (limits: Result<ResourceLimits, Fault>)
    ensures
        match context_limits_of(declared as nat) {
            Some(l) => limits == Ok::<ResourceLimits, Fault>(l),
            None => limits == Err::<ResourceLimits, Fault>(Fault::ResourceLimitConstructionFailed),
        },
        limits matches Ok(l) ==> l.well_formed() && limits_fit(l),
{
    match compute_limits(declared as u64) {
        Err(_) => Err(Fault::ResourceLimitConstructionFailed),
        Ok(limits) => {
            if check_limits_fit(&limits) {
                Ok(limits)
            } else {
                Err(Fault::ResourceLimitConstructionFailed)
            }
        },
    }
}

/// Where the module of a request comes from.
pub enum ModuleSource<'a, H> {
    /// The registry holds it.
    Cached(&'a H),
    /// It is loaded anew from the file of this name in the module directory.
    Fresh(String),
}

/// Decides where the module of `endpoint` in the variant `protection` comes
/// from. With `aslr` it is always loaded anew, from the file that is named
/// after it, and the registry is not asked. Without, it is the module that
/// the registry holds under its name, and a request for a name that the
/// registry does not hold fails.
pub fn select_module<'a, H>(
    registry: &'a ModuleRegistry<H>,
    endpoint: &str,
    protection: &str,
    aslr: bool,
) -> (source: Result<ModuleSource<'a, H>, Fault>)
    ensures
        match source {
            Ok(ModuleSource::Fresh(file)) => aslr && file@ == artifact_file_of(
                artifact_name_of(endpoint@, protection@),
            ),
            Ok(ModuleSource::Cached(handle)) => !aslr && lookup_in(
                registry@,
                artifact_name_of(endpoint@, protection@),
            ) == Some(*handle),
            Err(fault) => !aslr && fault == Fault::ModuleNotFound && !registry@.contains_key(
                artifact_name_of(endpoint@, protection@),
            ),
        },
{
    let module_name = artifact_name(endpoint, protection);
    if aslr {
        Ok(ModuleSource::Fresh(artifact_file_name(module_name.as_str())))
    } else {
        match registry.lookup(module_name.as_str()) {
            Some(handle) => Ok(ModuleSource::Cached(handle)),
            None => Err(Fault::ModuleNotFound),
        }
    }
}

/// The faults with which building an execution context can end, given
/// whether the module is cached and whether a randomized layout is asked for:
/// a module is missing only on the cached path, a load fails only on the
/// randomized one.
pub open spec fn construction_fault(cached: bool, randomized: bool, fault: Fault) -> bool {
    match fault {
        Fault::ModuleNotFound => !randomized && !cached,
        Fault::ArtifactLoadFailed => randomized,
        Fault::ResourceLimitConstructionFailed => randomized || cached,
        _ => false,
    }
}

/// Builds a fresh execution context for one request. The module is the one
/// cached as `<endpoint>_<protection>`, or, with `aslr`, the one loaded anew
/// from the file of that name in `dir`. The context gets `input` as its
/// arguments, the root directory if `enable_file_access` says so, limits that
/// follow from the module's globals, and the variant tag.
pub fn create_wasm_instance(
    registry: &ModuleRegistry<Arc<lucet_runtime::DlModule>>,
    endpoint: String,
    protection: String,
    input: Vec<String>,
    aslr: bool,
    dir: &str,
    enable_file_access: bool,
) -> (instance: Result<lucet_runtime::InstanceHandle, Fault>)
    ensures
        instance is Ok ==> aslr || registry@.contains_key(artifact_name_of(endpoint@, protection@)),
        instance matches Err(fault) ==> construction_fault(
            registry@.contains_key(artifact_name_of(endpoint@, protection@)),
            aslr,
            fault,
        ),
{
    let module = match select_module(registry, endpoint.as_str(), protection.as_str(), aslr) {
        Err(fault) => {
            return Err(fault);
        },
        Ok(ModuleSource::Cached(handle)) => share(handle),
        Ok(ModuleSource::Fresh(file)) => {
            let path = artifact_path(dir, file.as_str());
            match load_randomized(path.as_str()) {
                Ok(module) => module,
                Err(fault) => {
                    return Err(fault);
                },
            }
        },
    };
    let with_args = wasi_with_args(wasi_builder(), &input);
    let builder = if enable_file_access {
        match wasi_with_dir(with_args, "/") {
            Some(with_dir) => with_dir,
            None => {
                return Err(Fault::ResourceLimitConstructionFailed);
            },
        }
    } else {
        with_args
    };
    let wasi_ctx = match wasi_build(builder) {
        Ok(ctx) => ctx,
        Err(_) => {
            return Err(Fault::ResourceLimitConstructionFailed);
        },
    };
    let limits = match context_limits(declared_globals_size(&module)) {
        Ok(limits) => limits,
        Err(fault) => {
            return Err(fault);
        },
    };
    let region = match create_region(1, &limits) {
        Ok(region) => region,
        Err(_) => {
            return Err(Fault::ResourceLimitConstructionFailed);
        },
    };
    match build_instance(&region, module, wasi_ctx, protection) {
        Ok(instance) => Ok(instance),
        Err(_) => Err(Fault::ResourceLimitConstructionFailed),
    }
}

} // verus!
