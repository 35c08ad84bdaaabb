//! Safe, verified plugin-bridge layer for a relational database host.
//!
//! The host server loads plugins through a fixed C ABI: a descriptor
//! record the loader scans for, a table of per-operation function
//! pointers, and an opaque per-instance handle. This crate models and
//! verifies the bridge logic around that ABI: version encoding,
//! descriptor and system-variable assembly, vtable construction,
//! instance lifecycle with type-tag checking, and the decision logic of
//! the bundled key-management plugin.

pub mod bridge;
pub mod descriptor;
pub mod encryption;
pub mod ftparser;
pub mod handler;
pub mod handlerton;
pub mod keymgt;
pub mod registration;
pub mod service;
pub mod storage_error;
pub mod sysvar;
pub mod table;
pub mod util;
pub mod value;
pub mod version;
pub mod vtable;
pub mod wrapper;

pub use version::{parse_version_str, version_int, VersionError};
