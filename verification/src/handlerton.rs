//! The handlerton: a storage engine's singleton entry point.
//!
//! The host keeps one handlerton record per loaded engine; it holds the
//! factory for handler instances and engine-wide hooks. The record is
//! filled in once when the engine's plugin loads and is read-only after
//! that.

use vstd::prelude::*;

use crate::descriptor::TypeTag;
use crate::handler::Handler;
use crate::vtable::HandlerVtable;

verus! {

/// Error of a handlerton-level operation. The operation set carried
/// here has no failing case yet; the one variant stands in until a hook
/// reports something.
#[derive(Clone, Copy, Debug, PartialEq, Eq, Structural)]
#[non_exhaustive]
pub enum Error {
    /// A handlerton hook failed for an unspecified reason.
    Unspecified,
}

/// A "handlerton" (handler singleton) is the entry point of a storage
/// engine: registration data and the factory for its handlers.
pub trait Handlerton {
    /// The handler type this engine creates.
    type HandlerType: Handler;

    /// A type of data stored during a savepoint.
    type SavePoint;

    /// Engine-wide flag bits, from the host's header namespace.
    fn flags() -> u32 {
        0
    }

    /// Extensions of the files the engine creates for one table.
    fn tablefile_extensions() -> Vec<String> {
        Vec::new()
    }
}

/// The slot a handlerton's record holds for its handler factory: enough
/// to construct a bridge for the engine's concrete handler type.
#[derive(Clone, Copy, Debug, PartialEq, Eq, Structural)]
pub struct CreateHandlerSlot {
    /// The vtable the factory installs on every new handler bridge.
    pub vtable: HandlerVtable,
}

/// The slot for the engine's kill-query hook, bound to the concrete
/// handlerton type's tag.
#[derive(Clone, Copy, Debug, PartialEq, Eq, Structural)]
pub struct KillQuerySlot {
    pub type_tag: TypeTag,
}

/// The host's per-engine record, as the bridge fills it in: the handler
/// factory, the engine flags, and the optional hooks.
#[derive(Clone, Copy, Debug, PartialEq, Eq, Structural)]
pub struct HandlertonRecord {
    /// Handler factory; null until the engine's init trampoline ran.
    pub create: Option<CreateHandlerSlot>,
    /// Engine-wide flag bits.
    pub flags: u32,
    /// Kill-query hook; null unless installed.
    pub kill_query: Option<KillQuerySlot>,
    /// The per-connection data slot index the host assigned this engine.
    pub slot: usize,
}

/// Context of a handlerton-level call: which engine and which
/// connection-data slot it concerns.
#[derive(Clone, Copy, Debug, PartialEq, Eq, Structural)]
pub struct HandlertonCtx {
    /// The engine's per-connection data slot index.
    pub slot: usize,
}

/// A connection seen through one engine's handlerton: the engine's
/// per-connection data slot on that connection.
#[derive(Clone, Copy, Debug, PartialEq, Eq, Structural)]
pub struct HandlertonThd {
    /// The engine's per-connection data slot index.
    pub slot: usize,
}

impl HandlertonThd {
    /// The engine's data on this connection; nothing is stored yet.
    pub fn data(&self) {
    }
}

/// Install the engine-level hooks on the host's record: the kill-query
/// hook bound to the concrete handlerton type.
pub fn initialize_handlerton(hton: &mut HandlertonRecord, tag: TypeTag)
    ensures
        final(hton).kill_query == Some(KillQuerySlot { type_tag: tag }),
        final(hton).create == old(hton).create,
        final(hton).flags == old(hton).flags,
        final(hton).slot == old(hton).slot,
{
    hton.kill_query = Some(KillQuerySlot { type_tag: tag });
}

} // verus!
