//! Plugin descriptor records and the loader-facing registration values.
//!
//! The host loader reads three values from a plugin: an interface-version
//! integer, the byte size of one descriptor record, and an array of
//! descriptor records terminated by an all-zero sentinel. It validates
//! the first two against its own compiled-in expectations before calling
//! anything in the plugin; a mismatch is an ABI skew and the plugin must
//! be refused, never loaded on a guess.

use vstd::prelude::*;

use crate::sysvar::SysVarRecord;

verus! {

/// Interface version the host compares against its own. Mirrors the
/// value in the host's plugin header surface.
pub const MARIA_PLUGIN_INTERFACE_VERSION: i32 = 0x010e;

/// Byte size of one descriptor record in the host's compiled layout.
/// Mirrors the size of the record in the host's plugin header surface.
pub const PLUGIN_DESCRIPTOR_SIZE: i32 = 104;

/// Interface version of the encryption capability table. Mirrors the
/// value in the host's encryption plugin header.
pub const MARIADB_ENCRYPTION_INTERFACE_VERSION: i32 = 0x0300;

/// The kind of plugin a descriptor declares.
#[derive(Clone, Copy, Debug, PartialEq, Eq, Structural)]
pub enum PluginType {
    Udf,
    MyStorageEngine,
    FtParser,
    Daemon,
    InformationSchema,
    Audit,
    Replication,
    Authentication,
    MariaPasswordValidation,
    MariaEncryption,
    MariaDataType,
    MariaFunction,
}

/// The host's integer code for a plugin type.
pub open spec fn spec_ptype_registration(t: PluginType) -> i32 {
    match t {
        PluginType::Udf => 0,
        PluginType::MyStorageEngine => 1,
        PluginType::FtParser => 2,
        PluginType::Daemon => 3,
        PluginType::InformationSchema => 4,
        PluginType::Audit => 5,
        PluginType::Replication => 6,
        PluginType::Authentication => 7,
        PluginType::MariaPasswordValidation => 8,
        PluginType::MariaEncryption => 9,
        PluginType::MariaDataType => 10,
        PluginType::MariaFunction => 11,
    }
}

impl PluginType {
    /// The integer the host's loader expects in the descriptor's type
    /// field.
    pub fn to_ptype_registration(self) -> (r: i32)
        ensures
            r == spec_ptype_registration(self),
    {
        match self {
            PluginType::Udf => 0,
            PluginType::MyStorageEngine => 1,
            PluginType::FtParser => 2,
            PluginType::Daemon => 3,
            PluginType::InformationSchema => 4,
            PluginType::Audit => 5,
            PluginType::Replication => 6,
            PluginType::Authentication => 7,
            PluginType::MariaPasswordValidation => 8,
            PluginType::MariaEncryption => 9,
            PluginType::MariaDataType => 10,
            PluginType::MariaFunction => 11,
        }
    }
}

/// The license a descriptor declares.
#[derive(Clone, Copy, Debug, PartialEq, Eq, Structural)]
pub enum License {
    Proprietary,
    Gpl,
    Bsd,
}

/// The host's integer code for a license.
pub open spec fn spec_license_registration(l: License) -> i32 {
    match l {
        License::Proprietary => 0,
        License::Gpl => 1,
        License::Bsd => 2,
    }
}

impl License {
    /// The integer the host's loader expects in the license field.
    pub fn to_license_registration(self) -> (r: i32)
        ensures
            r == spec_license_registration(self),
    {
        match self {
            License::Proprietary => 0,
            License::Gpl => 1,
            License::Bsd => 2,
        }
    }
}

/// The maturity level a descriptor declares.
#[derive(Clone, Copy, Debug, PartialEq, Eq, Structural)]
pub enum Maturity {
    Unknown,
    Experimental,
    Alpha,
    Beta,
    Gamma,
    Stable,
}

/// The host's integer code for a maturity level.
pub open spec fn spec_maturity_registration(m: Maturity) -> i32 {
    match m {
        Maturity::Unknown => 0,
        Maturity::Experimental => 1,
        Maturity::Alpha => 2,
        Maturity::Beta => 3,
        Maturity::Gamma => 4,
        Maturity::Stable => 5,
    }
}

impl Maturity {
    /// The integer the host's loader expects in the maturity field.
    pub fn to_maturity_registration(self) -> (r: i32)
        ensures
            r == spec_maturity_registration(self),
    {
        match self {
            Maturity::Unknown => 0,
            Maturity::Experimental => 1,
            Maturity::Alpha => 2,
            Maturity::Beta => 3,
            Maturity::Gamma => 4,
            Maturity::Stable => 5,
        }
    }
}

/// A tag standing for a concrete plugin-author type. Trampolines carry
/// the tag of the type they were generated for.
pub type TypeTag = u64;

/// The generated init or deinit trampoline installed in a descriptor.
#[derive(Clone, Copy, Debug, PartialEq, Eq, Structural)]
pub enum InitTrampoline {
    /// Wraps the declared init type's setup and teardown for the main
    /// plugin type.
    WithInit { main: TypeTag, init: TypeTag },
    /// Default trampoline for a plugin without an init type: only the
    /// common per-load setup runs.
    Default { main: TypeTag },
}

/// A generated key-management trampoline, bound to the concrete type it
/// dispatches to.
#[derive(Clone, Copy, Debug, PartialEq, Eq, Structural)]
pub struct KeyMgrTrampoline {
    pub main: TypeTag,
}

/// A generated crypto-context trampoline, bound to the concrete
/// encryption and decryption types it dispatches to.
#[derive(Clone, Copy, Debug, PartialEq, Eq, Structural)]
pub struct CryptTrampoline {
    pub enc: TypeTag,
    pub dec: TypeTag,
}

/// A generated encrypted-length trampoline, bound to the concrete
/// encryption type it dispatches to.
#[derive(Clone, Copy, Debug, PartialEq, Eq, Structural)]
pub struct EncLenTrampoline {
    pub enc: TypeTag,
}

/// The encryption capability table a descriptor's info field points at.
/// Slot order and presence mirror the host's encryption plugin record:
/// key-management slots are always populated; crypto-context slots are
/// populated only when the plugin declares its own cipher types, and a
/// null slot tells the host to fall back to its builtin scheme.
#[derive(Clone, Copy, Debug, PartialEq, Eq, Structural)]
pub struct EncryptionVtable {
    pub interface_version: i32,
    pub get_latest_key_version: Option<KeyMgrTrampoline>,
    pub get_key: Option<KeyMgrTrampoline>,
    pub crypt_ctx_size: Option<CryptTrampoline>,
    pub crypt_ctx_init: Option<CryptTrampoline>,
    pub crypt_ctx_update: Option<CryptTrampoline>,
    pub crypt_ctx_finish: Option<CryptTrampoline>,
    pub encrypted_length: Option<EncLenTrampoline>,
}

/// Placeholder for a host status-variable table; the bridge never emits
/// one, so the field it models is always null.
#[derive(Clone, Copy, Debug, PartialEq, Eq, Structural)]
pub struct StatusVarTable {
    pub reserved: u64,
}

/// One plugin descriptor record, mirroring the host's registration
/// layout field for field. `None` stands for a null pointer slot.
#[derive(Clone, Debug)]
pub struct PluginDescriptor {
    /// Plugin type code.
    pub ptype: i32,
    /// Capability-group table (the encryption operation table here).
    pub info: Option<EncryptionVtable>,
    /// Plugin name.
    pub name: Option<String>,
    /// Author string.
    pub author: Option<String>,
    /// Description string.
    pub descr: Option<String>,
    /// License code.
    pub license: i32,
    /// Init trampoline the loader calls after validation.
    pub init: Option<InitTrampoline>,
    /// Deinit trampoline the loader calls on unload.
    pub deinit: Option<InitTrampoline>,
    /// Packed version integer.
    pub version: u32,
    /// Status-variable table; never populated by this bridge.
    pub status_vars: Option<StatusVarTable>,
    /// Null-terminated system-variable pointer array.
    pub system_vars: Option<Vec<Option<SysVarRecord>>>,
    /// Human-readable version string.
    pub version_info: Option<String>,
    /// Maturity code.
    pub maturity: i32,
}

/// The all-zero/all-null sentinel record the host scans for.
pub open spec fn is_null_record(d: PluginDescriptor) -> bool {
    &&& d.ptype == 0
    &&& d.info is None
    &&& d.name is None
    &&& d.author is None
    &&& d.descr is None
    &&& d.license == 0
    &&& d.init is None
    &&& d.deinit is None
    &&& d.version == 0
    &&& d.status_vars is None
    &&& d.system_vars is None
    &&& d.version_info is None
    &&& d.maturity == 0
}

/// New descriptor record with every field zero or null: the sentinel
/// that terminates the registration array.
pub fn new_null_plugin_st() -> (r: PluginDescriptor)
    ensures
        is_null_record(r),
{
    PluginDescriptor {
        ptype: 0,
        info: None,
        name: None,
        author: None,
        descr: None,
        license: 0,
        init: None,
        deinit: None,
        version: 0,
        status_vars: None,
        system_vars: None,
        version_info: None,
        maturity: 0,
    }
}

/// Everything the loader reads from a built plugin: the two companion
/// values it validates first, and the sentinel-terminated descriptor
/// array.
#[derive(Clone, Debug)]
pub struct PluginRegistration {
    /// Interface version the loader compares with its own.
    pub interface_version: i32,
    /// Byte size of one descriptor record, for ABI-skew detection.
    pub sizeof_struct: i32,
    /// The descriptor records: each declared plugin, then the sentinel.
    pub plugins: Vec<PluginDescriptor>,
}

/// A well-formed registration: the companion values are the compiled-in
/// constants, and the array is one descriptor followed by the all-null
/// sentinel.
pub open spec fn registration_well_formed(reg: PluginRegistration) -> bool {
    &&& reg.interface_version == MARIA_PLUGIN_INTERFACE_VERSION
    &&& reg.sizeof_struct == PLUGIN_DESCRIPTOR_SIZE
    &&& reg.plugins@.len() == 2
    &&& is_null_record(reg.plugins@.last())
}

/// An ABI-fatal condition found while validating a registration.
/// Neither is recoverable: loading must stop, because continuing against
/// a skewed ABI risks memory corruption on every later call.
#[derive(Clone, Copy, Debug, PartialEq, Eq, Structural)]
pub enum LoadError {
    /// The plugin was built against another interface version.
    InterfaceVersionMismatch,
    /// The descriptor record layout differs in size from the host's.
    DescriptorSizeMismatch,
}

/// The validation the host loader performs before calling into a
/// plugin: the interface version and the descriptor size must equal the
/// host's compiled-in expectations exactly.
pub fn loader_validate(reg: &PluginRegistration, host_interface_version: i32, host_sizeof: i32) -> (
    r: Result<(), LoadError>)
    ensures
        r is Ok <==> reg.interface_version == host_interface_version && reg.sizeof_struct
            == host_sizeof,
        r == Err::<(), LoadError>(LoadError::InterfaceVersionMismatch) <==> reg.interface_version
            != host_interface_version,
        r == Err::<(), LoadError>(LoadError::DescriptorSizeMismatch) <==> reg.interface_version
            == host_interface_version && reg.sizeof_struct != host_sizeof,
{
    if reg.interface_version != host_interface_version {
        Err(LoadError::InterfaceVersionMismatch)
    } else if reg.sizeof_struct != host_sizeof {
        Err(LoadError::DescriptorSizeMismatch)
    } else {
        Ok(())
    }
}

} // verus!
