//! Phase-tagged views of host table objects.
//!
//! The host's table and table-share objects are valid for different
//! operations in different lifecycle phases. Rather than checking the
//! phase at run time, the wrapper types carry a compile-time phase tag:
//! an accessor that is wrong for the phase does not exist as a callable
//! operation. The wrappers are views, never owners; the host controls
//! the lifetime of what they stand for.

use core::marker::PhantomData;
use vstd::prelude::*;

verus! {

/// Marker for a table lifecycle phase.
pub trait TableState {

}

/// Phase of a table while it is being created.
pub struct Create {

}

impl TableState for Create {

}

/// A host table object, usable only through accessors of its phase.
pub struct Table<S: TableState> {
    /// The share this table belongs to.
    pub share: TableShare<S>,
    pub state: PhantomData<S>,
}

/// The object shared among all instances of one table, phase-tagged the
/// same way.
pub struct TableShare<S: TableState> {
    pub state: PhantomData<S>,
}

impl<S: TableState> Table<S> {
    /// The share this table belongs to.
    pub fn share(&self) -> (r: &TableShare<S>)
        ensures
            r == &self.share,
    {
        &self.share
    }
}

impl<S: TableState> TableShare<S> {
    /// A fresh share view for the phase.
    pub fn new() -> (r: TableShare<S>) {
        TableShare { state: PhantomData }
    }
}

/// A host allocation root handed to a handler when it is constructed.
/// Opaque here: allocation itself stays with the host.
pub struct MemRoot {
    opaque: PhantomData<()>,
}

impl MemRoot {
    /// A fresh allocation-root handle.
    pub fn new() -> (r: MemRoot) {
        MemRoot { opaque: PhantomData }
    }
}

/// A host connection descriptor. Opaque here.
pub struct Thd {
    opaque: PhantomData<()>,
}

/// How urgently the host wants a running statement stopped.
#[derive(Clone, Copy, Debug, PartialEq, Eq, Structural)]
pub enum ThdKillLevel {
    /// No action needed.
    NotKilled,
    /// Abort when possible without corrupting data.
    AbortSoftly,
    /// Abort as soon as possible.
    AbortAsap,
}

} // verus!
