//! Init and deinit trampolines: the entry points the loader calls after
//! validating a plugin, wrapped around the plugin author's setup and
//! teardown.
//!
//! The loader expects zero for success and a small nonzero integer for
//! failure; a native result never crosses the ABI directly.

use vstd::prelude::*;

use crate::descriptor::TypeTag;
use crate::handlerton::{CreateHandlerSlot, Handlerton, HandlertonRecord};
use crate::vtable::HandlerVtable;

verus! {

/// Identity a plugin's registration generates for its main type.
pub trait PluginMeta {
    /// The plugin's declared name.
    fn name() -> &'static str;
}

/// The setup-failure value a plugin's init or deinit hands back.
#[derive(Clone, Copy, Debug, PartialEq, Eq, Structural)]
pub struct InitError {

}

/// Setup and teardown a plugin author may provide; both default to
/// nothing to do.
pub trait Init {
    /// Run once when the plugin loads.
    fn init() -> (r: Result<(), InitError>) {
        Ok(())
    }

    /// Run once when the plugin unloads.
    fn deinit() -> (r: Result<(), InitError>) {
        Ok(())
    }
}

/// A storage-engine plugin whose registration generated a vtable for its
/// handler type.
pub trait HandlertonMeta: Handlerton + PluginMeta {
    /// The generated vtable for this engine's handler type.
    fn get_vtable() -> HandlerVtable;
}

/// Init trampoline for a plugin with a declared init type: run the
/// type's setup, hand the loader zero on success and one on failure.
pub fn wrap_init_fn<P: PluginMeta, I: Init>() -> (r: i32)
    ensures
        r == 0 || r == 1,
{
    match I::init() {
        Ok(()) => 0,
        Err(_) => 1,
    }
}

/// Deinit trampoline for a plugin with a declared init type.
pub fn wrap_deinit_fn<P: PluginMeta, I: Init>() -> (r: i32)
    ensures
        r == 0 || r == 1,
{
    match I::deinit() {
        Ok(()) => 0,
        Err(_) => 1,
    }
}

/// Init trampoline for a plugin without an init type: only the common
/// per-load setup, which cannot fail.
pub fn default_init_notype<P: PluginMeta>() -> (r: i32)
    ensures
        r == 0,
{
    0
}

/// Deinit trampoline for a plugin without an init type.
pub fn default_deinit_notype<P: PluginMeta>() -> (r: i32)
    ensures
        r == 0,
{
    0
}

/// Storage-engine init trampoline: install the handler factory with the
/// engine's generated vtable and the engine flags on the host's record,
/// and report success.
pub fn wrap_storage_init_fn<P: HandlertonMeta>(hton: &mut HandlertonRecord) -> (r: i32)
    ensures
        r == 0,
        final(hton).create is Some,
        final(hton).kill_query == old(hton).kill_query,
        final(hton).slot == old(hton).slot,
{
    let vtable = P::get_vtable();
    hton.create = Some(CreateHandlerSlot { vtable });
    hton.flags = P::flags();
    0
}

/// Storage-engine deinit trampoline: nothing to undo.
pub fn wrap_storage_deinit_fn<P: Handlerton>(hton: &mut HandlertonRecord) -> (r: i32)
    ensures
        r == 0,
        *final(hton) == *old(hton),
{
    0
}

} // verus!
