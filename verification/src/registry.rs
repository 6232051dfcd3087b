//! The plugin registry: a cache mapping each backend to the outcome of its
//! one and only load attempt, with the symbol names the loader resolves.
//!
//! A backend is loaded lazily on first use and never reloaded or unloaded;
//! a failed load is cached as a negative result, so a permanently missing
//! backend costs one load attempt per process rather than one per call.
//! A loaded backend's missing entry points are recorded as absent, and
//! only a call that needs an absent entry point fails.

use vstd::prelude::*;
use vstd::string::StringExecFns;

use crate::error::NssError;
use crate::nss_common::{
    function_name_spec, module_name_spec, module_path_spec, op_index_spec, operation_at,
    operation_of_index, NssModule, NssOperation,
};
use crate::port::{NssCallPort, OpTable};

verus! {

/// What the registry knows about one backend.
#[derive(Debug, Clone, Copy)]
pub enum ModuleStatus {
    /// No load has been attempted yet.
    Unloaded,
    /// The library could not be loaded; cached so the load is not retried.
    LoadFailed,
    /// The library is loaded, with the table of entry points it exposes.
    Loaded(OpTable),
}

/// The process-wide cache of loaded backends: one slot per descriptor, so
/// no backend can ever have two entries.
#[derive(Debug, Clone, Copy)]
pub struct NssRegistry {
    pub files: ModuleStatus,
    pub sss: ModuleStatus,
    pub winbind: ModuleStatus,
}

/// The registry's slot for a backend.
pub open spec fn status_of(reg: NssRegistry, m: NssModule) -> ModuleStatus {
    match m {
        NssModule::Files => reg.files,
        NssModule::Sss => reg.sss,
        NssModule::Winbind => reg.winbind,
    }
}

/// Whether a backend in the given state exposes the given entry point.
pub open spec fn op_available(st: ModuleStatus, op: NssOperation) -> bool {
    match st {
        ModuleStatus::Loaded(t) => t.present@[op_index_spec(op)],
        _ => false,
    }
}

/// The entry-point symbol a backend exposes for an operation:
/// an internal prefix, the backend name and the native function name.
pub open spec fn symbol_name_spec(m: NssModule, op: NssOperation) -> Seq<char> {
    "_nss_"@ + module_name_spec(m) + "_"@ + function_name_spec(op)
}

/// The text of the error for a backend library that could not be loaded.
pub open spec fn load_error_spec(m: NssModule) -> Seq<char> {
    "Failed to load library: "@ + module_path_spec(m)
}

/// The text of the error for a loaded backend that lacks an entry point.
pub open spec fn missing_fn_error_spec(op: NssOperation, m: NssModule) -> Seq<char> {
    "Function "@ + function_name_spec(op) + " not found in "@ + module_name_spec(m)
}

/// The entry-point symbol name for an operation of a backend.
pub fn symbol_name(module: NssModule, op: NssOperation) -> (r: String)
    ensures
        r@ == symbol_name_spec(module, op),
{
    let mut r = "_nss_".to_owned();
    r.append(module.name());
    r.append("_");
    r.append(op.function_name());
    r
}

/// The ten entry-point symbol names of a backend, indexed by table slot.
pub fn build_symbol_names(module: NssModule) -> (names: Vec<String>)
    ensures
        names@.len() == 10,
        forall|i: int| 0 <= i < 10 ==> names@[i]@ == symbol_name_spec(module, operation_at(i)),
{
    let mut names: Vec<String> = Vec::new();
    let mut i: usize = 0;
    while i < 10
        invariant
            i <= 10,
            names@.len() == i as int,
            forall|j: int| 0 <= j < i as int ==> names@[j]@ == symbol_name_spec(
                module,
                operation_at(j),
            ),
        decreases 10 - i,
    {
        let op = operation_of_index(i);
        names.push(symbol_name(module, op));
        i = i + 1;
    }
    names
}

fn load_error_message(module: NssModule) -> (r: String)
    ensures
        r@ == load_error_spec(module),
{
    let mut r = "Failed to load library: ".to_owned();
    r.append(module.path());
    r
}

fn missing_fn_message(op: NssOperation, module: NssModule) -> (r: String)
    ensures
        r@ == missing_fn_error_spec(op, module),
{
    let mut r = "Function ".to_owned();
    r.append(op.function_name());
    r.append(" not found in ");
    r.append(module.name());
    r
}

/// How one backend's cache slot may move under any number of
/// resolutions: a loaded backend keeps its table, a failed load stays
/// failed, and only an untouched backend may change.
pub open spec fn status_step_ok(s1: ModuleStatus, s2: ModuleStatus) -> bool {
    match s1 {
        ModuleStatus::Loaded(t) => s2 == ModuleStatus::Loaded(t),
        ModuleStatus::LoadFailed => s2 is LoadFailed,
        ModuleStatus::Unloaded => true,
    }
}

/// How the whole registry may move under any number of resolutions: every
/// slot moves by `status_step_ok`, so no backend is ever reloaded and no
/// failed load is ever retried.
pub open spec fn registry_evolves(r1: NssRegistry, r2: NssRegistry) -> bool {
    forall|m: NssModule| #[trigger]
        status_step_ok(status_of(r1, m), status_of(r2, m))
}

/// A registry evolves to itself.
pub proof fn lemma_registry_evolves_refl(a: NssRegistry)
    ensures
        registry_evolves(a, a),
{
    assert forall|m: NssModule| #[trigger]
        status_step_ok(status_of(a, m), status_of(a, m)) by {}
}

/// `registry_evolves` composes across consecutive resolutions.
pub proof fn lemma_registry_evolves_trans(a: NssRegistry, b: NssRegistry, c: NssRegistry)
    requires
        registry_evolves(a, b),
        registry_evolves(b, c),
    ensures
        registry_evolves(a, c),
{
    assert forall|m: NssModule| #[trigger]
        status_step_ok(status_of(a, m), status_of(c, m)) by {
        assert(status_step_ok(status_of(a, m), status_of(b, m)));
        assert(status_step_ok(status_of(b, m), status_of(c, m)));
    }
}

/// What one resolution of `m` does to the registry: every other slot is
/// untouched, and `m`'s slot is loaded at most once, with a failed load
/// cached.
pub open spec fn resolve_transition(
    old_reg: NssRegistry,
    new_reg: NssRegistry,
    m: NssModule,
) -> bool {
    &&& forall|m2: NssModule| m2 != m ==> status_of(new_reg, m2) == status_of(old_reg, m2)
    &&& match status_of(old_reg, m) {
        ModuleStatus::Loaded(t) => status_of(new_reg, m) == ModuleStatus::Loaded(t),
        ModuleStatus::LoadFailed => status_of(new_reg, m) is LoadFailed,
        ModuleStatus::Unloaded => status_of(new_reg, m) is Loaded || status_of(new_reg, m)
            is LoadFailed,
    }
}

/// A single resolution is one of the allowed registry evolutions.
pub proof fn lemma_resolve_transition_evolves(a: NssRegistry, b: NssRegistry, m: NssModule)
    requires
        resolve_transition(a, b, m),
    ensures
        registry_evolves(a, b),
{
    assert forall|m2: NssModule| #[trigger]
        status_step_ok(status_of(a, m2), status_of(b, m2)) by {
        if m2 != m {
            assert(status_of(b, m2) == status_of(a, m2));
        }
    }
}

/// The exact error a resolution surfaces, keyed on the backend's final
/// state: the load-failure text for an unloadable library, the
/// missing-function text for a loaded library that lacks the entry
/// point.
pub open spec fn resolve_err_text(
    reg: NssRegistry,
    op: NssOperation,
    m: NssModule,
    e: NssError,
) -> bool {
    if status_of(reg, m) is LoadFailed {
        e matches NssError::LibraryError(t) && t@ == load_error_spec(m)
    } else {
        e matches NssError::LibraryError(t) && t@ == missing_fn_error_spec(op, m)
    }
}

/// How one resolution changes the registry and what it returns: the
/// registry moves by `resolve_transition`, and the call succeeds exactly
/// when the backend ended up loaded with the requested entry point
/// present.
pub open spec fn resolve_post(
    old_reg: NssRegistry,
    new_reg: NssRegistry,
    op: NssOperation,
    m: NssModule,
    r: Result<(), NssError>,
) -> bool {
    &&& resolve_transition(old_reg, new_reg, m)
    &&& (r is Ok <==> op_available(status_of(new_reg, m), op))
    &&& match r {
        Ok(_) => true,
        Err(e) => resolve_err_text(new_reg, op, m, e),
    }
}

impl NssRegistry {
    /// A registry with no backend loaded yet.
    #[must_use]
    pub fn new() -> (r: NssRegistry)
        ensures
            forall|m: NssModule| status_of(r, m) is Unloaded,
    {
        NssRegistry {
            files: ModuleStatus::Unloaded,
            sss: ModuleStatus::Unloaded,
            winbind: ModuleStatus::Unloaded,
        }
    }

    /// The cached state of one backend.
    #[must_use]
    pub fn status(&self, module: NssModule) -> (r: ModuleStatus)
        ensures
            r == status_of(*self, module),
    {
        match module {
            NssModule::Files => self.files,
            NssModule::Sss => self.sss,
            NssModule::Winbind => self.winbind,
        }
    }

    fn set_status(&mut self, module: NssModule, st: ModuleStatus)
        ensures
            status_of(*final (self), module) == st,
            forall|m2: NssModule| m2 != module ==> status_of(*final (self), m2) == status_of(
                *old(self),
                m2,
            ),
    {
        match module {
            NssModule::Files => {
                self.files = st;
            },
            NssModule::Sss => {
                self.sss = st;
            },
            NssModule::Winbind => {
                self.winbind = st;
            },
        }
    }
}

/// Resolves one entry point of one backend, loading and caching the
/// backend's library on its first use.
///
/// `Ok(())` means the entry point is available and the port can be asked
/// to invoke it; the errors distinguish an unloadable library from a
/// loaded one that lacks this entry point.
pub fn get_nss_function<P: NssCallPort>(
    registry: &mut NssRegistry,
    port: &mut P,
    operation: NssOperation,
    module: NssModule,
) -> (r: Result<(), NssError>)
    ensures
        resolve_post(*old(registry), *final (registry), operation, module, r),
{
    let table: OpTable;
    match registry.status(module) {
        ModuleStatus::Loaded(t) => {
            table = t;
        },
        ModuleStatus::LoadFailed => {
            return Err(NssError::LibraryError(load_error_message(module)));
        },
        ModuleStatus::Unloaded => {
            let names = build_symbol_names(module);
            match port.load_module(module, module.path(), &names) {
                Some(t) => {
                    registry.set_status(module, ModuleStatus::Loaded(t));
                    table = t;
                },
                None => {
                    registry.set_status(module, ModuleStatus::LoadFailed);
                    return Err(NssError::LibraryError(load_error_message(module)));
                },
            }
        },
    }
    let idx = operation.as_index();
    if table.present[idx] {
        Ok(())
    } else {
        Err(NssError::LibraryError(missing_fn_message(operation, module)))
    }
}

} // verus!
