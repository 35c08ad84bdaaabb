//! System-variable descriptors and their encoder.
//!
//! A plugin may register configuration variables with the host. Each
//! variable is described by a record with a fixed common prefix (flags,
//! name, comment, check/update hooks) and a kind-specific suffix whose
//! exact shape the host's dispatcher selects from the type bits in the
//! flags. The registration descriptor carries a null-terminated array of
//! pointers to these records; an empty variable list is a null array
//! pointer, not an empty array.

use vstd::prelude::*;

verus! {

/// Host flag bit: the variable stores a boolean.
pub const PLUGIN_VAR_BOOL: u32 = 0x0001;

/// Host flag bit: the variable stores a 32-bit integer.
pub const PLUGIN_VAR_INT: u32 = 0x0002;

/// Host flag bit: the variable stores a 64-bit integer.
pub const PLUGIN_VAR_LONGLONG: u32 = 0x0004;

/// Host flag bit: the variable stores a string.
pub const PLUGIN_VAR_STR: u32 = 0x0005;

/// Host flag bit: the variable stores an enumerated value.
pub const PLUGIN_VAR_ENUM: u32 = 0x0006;

/// Host flag bit: the variable stores a set of enumerated values.
pub const PLUGIN_VAR_SET: u32 = 0x0007;

/// Host flag bit: the variable is unsigned.
pub const PLUGIN_VAR_UNSIGNED: u32 = 0x0080;

/// Host flag bit: the variable is read only.
pub const PLUGIN_VAR_READONLY: u32 = 0x0200;

/// Host flag bit: the variable is not shown in the system-variable table.
pub const PLUGIN_VAR_NOSYSVAR: u32 = 0x0400;

/// Host flag bit: no command-line option is generated.
pub const PLUGIN_VAR_NOCMDOPT: u32 = 0x0800;

/// Host flag bit: the command-line option takes no argument.
pub const PLUGIN_VAR_NOCMDARG: u32 = 0x1000;

/// Host flag bit: the command-line option's argument is required.
pub const PLUGIN_VAR_RQCMDARG: u32 = 0x0000;

/// Host flag bit: the command-line option's argument is optional.
pub const PLUGIN_VAR_OPCMDARG: u32 = 0x2000;

/// Host flag bit: the variable is deprecated.
pub const PLUGIN_VAR_DEPRECATED: u32 = 0x4000;

/// Host flag bit: the string's memory is allocated by the host.
pub const PLUGIN_VAR_MEMALLOC: u32 = 0x8000;

/// An option a plugin declaration may set on a variable.
#[derive(Clone, Copy, Debug, PartialEq, Eq, Structural)]
pub enum SysVarOpt {
    ReadOnly,
    NoSysVar,
    NoCliOption,
    NoCliArg,
    RequiredCliArg,
    OptionalCliArg,
    Deprecated,
    MemAlloc,
}

/// The host flag bit an option contributes to the record's flags field.
pub open spec fn spec_opt_flag(o: SysVarOpt) -> u32 {
    match o {
        SysVarOpt::ReadOnly => PLUGIN_VAR_READONLY,
        SysVarOpt::NoSysVar => PLUGIN_VAR_NOSYSVAR,
        SysVarOpt::NoCliOption => PLUGIN_VAR_NOCMDOPT,
        SysVarOpt::NoCliArg => PLUGIN_VAR_NOCMDARG,
        SysVarOpt::RequiredCliArg => PLUGIN_VAR_RQCMDARG,
        SysVarOpt::OptionalCliArg => PLUGIN_VAR_OPCMDARG,
        SysVarOpt::Deprecated => PLUGIN_VAR_DEPRECATED,
        SysVarOpt::MemAlloc => PLUGIN_VAR_MEMALLOC,
    }
}

impl SysVarOpt {
    /// Host flag bit for this option.
    pub fn flag(self) -> (r: u32)
        ensures
            r == spec_opt_flag(self),
    {
        match self {
            SysVarOpt::ReadOnly => PLUGIN_VAR_READONLY,
            SysVarOpt::NoSysVar => PLUGIN_VAR_NOSYSVAR,
            SysVarOpt::NoCliOption => PLUGIN_VAR_NOCMDOPT,
            SysVarOpt::NoCliArg => PLUGIN_VAR_NOCMDARG,
            SysVarOpt::RequiredCliArg => PLUGIN_VAR_RQCMDARG,
            SysVarOpt::OptionalCliArg => PLUGIN_VAR_OPCMDARG,
            SysVarOpt::Deprecated => PLUGIN_VAR_DEPRECATED,
            SysVarOpt::MemAlloc => PLUGIN_VAR_MEMALLOC,
        }
    }
}

/// The storage kind of a declared variable, which fixes the suffix shape
/// of its emitted record.
#[derive(Clone, Copy, Debug, PartialEq, Eq, Structural)]
pub enum SysVarKind {
    /// Boolean on/off switch.
    Bool,
    /// String the plugin never rewrites.
    ConstString,
    /// String the host may update in place.
    String,
    /// Ranged 32-bit integer.
    Int,
    /// Ranged 64-bit integer.
    LongLong,
    /// One value out of a name table.
    Enum,
    /// A subset of a name table.
    ValueSet,
}

/// The host type bits a kind contributes to the record's flags field.
pub open spec fn spec_kind_flag(k: SysVarKind) -> u32 {
    match k {
        SysVarKind::Bool => PLUGIN_VAR_BOOL,
        SysVarKind::ConstString => PLUGIN_VAR_STR,
        SysVarKind::String => PLUGIN_VAR_STR | PLUGIN_VAR_MEMALLOC,
        SysVarKind::Int => PLUGIN_VAR_INT,
        SysVarKind::LongLong => PLUGIN_VAR_LONGLONG,
        SysVarKind::Enum => PLUGIN_VAR_ENUM,
        SysVarKind::ValueSet => PLUGIN_VAR_SET,
    }
}

/// A default value in a variable declaration.
#[derive(Clone, Debug)]
pub enum SysVarDefault {
    Bool(bool),
    Str(String),
    Int(i64),
}

/// One declared variable, as written in a plugin's registration block.
#[derive(Clone, Debug)]
pub struct SysVarDecl {
    /// Tag of the plugin-local cell the record's value pointer refers to.
    pub ident: u64,
    /// Storage kind, which selects the record suffix.
    pub kind: SysVarKind,
    /// Variable name the host exposes.
    pub name: String,
    /// Human-readable description.
    pub description: String,
    /// Declaration options.
    pub options: Vec<SysVarOpt>,
    /// Default value; its shape must match the kind.
    pub default: SysVarDefault,
}

/// Kind-specific suffix of an emitted record.
#[derive(Clone, Debug)]
pub enum SysVarBody {
    Bool { def_val: bool },
    ConstStr { def_val: String },
    Str { def_val: String },
    Int { def_val: i32, min_val: i32, max_val: i32, blk_sz: i32 },
    LongLong { def_val: i64, min_val: i64, max_val: i64, blk_sz: i64 },
    Enum { def_val: u64 },
    ValueSet { def_val: u64 },
}

/// One emitted variable record: the common prefix every kind shares,
/// then the kind-specific suffix the host's dispatcher reads.
#[derive(Clone, Debug)]
pub struct SysVarRecord {
    /// Flags field: type bits of the kind plus the declared option bits.
    pub flags: u32,
    /// Variable name.
    pub name: String,
    /// Variable description.
    pub comment: String,
    /// Whether a check hook is installed (the bridge installs none).
    pub has_check: bool,
    /// Whether an update hook is installed (the bridge installs none).
    pub has_update: bool,
    /// Tag of the plugin-local cell the suffix's value pointer refers to.
    pub value_ref: u64,
    /// Kind-specific suffix.
    pub body: SysVarBody,
}

/// The default value's shape fits the declared kind.
pub open spec fn default_matches_kind(k: SysVarKind, d: SysVarDefault) -> bool {
    match k {
        SysVarKind::Bool => d is Bool,
        SysVarKind::ConstString => d is Str,
        SysVarKind::String => d is Str,
        SysVarKind::Int => d is Int,
        SysVarKind::LongLong => d is Int,
        SysVarKind::Enum => d is Int,
        SysVarKind::ValueSet => d is Int,
    }
}

/// Combined flags of a declaration: the kind's type bits or-ed with
/// every declared option bit, in declaration order.
pub open spec fn spec_decl_flags(k: SysVarKind, opts: Seq<SysVarOpt>) -> u32
    decreases opts.len(),
{
    if opts.len() == 0 {
        spec_kind_flag(k)
    } else {
        spec_decl_flags(k, opts.drop_last()) | spec_opt_flag(opts.last())
    }
}

/// The suffix a declaration encodes to.
pub open spec fn body_matches(decl: SysVarDecl, body: SysVarBody) -> bool {
    match decl.kind {
        SysVarKind::Bool => body == SysVarBody::Bool { def_val: decl.default->Bool_0 },
        SysVarKind::ConstString => body is ConstStr && body->ConstStr_def_val@ == decl.default->Str_0@,
        SysVarKind::String => body is Str && body->Str_def_val@ == decl.default->Str_0@,
        SysVarKind::Int => body == SysVarBody::Int {
            def_val: decl.default->Int_0 as i32,
            min_val: i32::MIN,
            max_val: i32::MAX,
            blk_sz: 1,
        },
        SysVarKind::LongLong => body == SysVarBody::LongLong {
            def_val: decl.default->Int_0,
            min_val: i64::MIN,
            max_val: i64::MAX,
            blk_sz: 1,
        },
        SysVarKind::Enum => body == SysVarBody::Enum { def_val: decl.default->Int_0 as u64 },
        SysVarKind::ValueSet => body == SysVarBody::ValueSet { def_val: decl.default->Int_0 as u64 },
    }
}

/// The record a declaration encodes to: flags from the kind and options,
/// name and comment copied, no hooks, and the kind's suffix.
pub open spec fn record_matches(decl: SysVarDecl, rec: SysVarRecord) -> bool {
    &&& rec.flags == spec_decl_flags(decl.kind, decl.options@)
    &&& rec.name@ == decl.name@
    &&& rec.comment@ == decl.description@
    &&& !rec.has_check
    &&& !rec.has_update
    &&& rec.value_ref == decl.ident
    &&& body_matches(decl, rec.body)
}

/// A declaration's default fits its kind and an Int default is in range
/// for a 32-bit kind.
pub open spec fn decl_well_formed(decl: SysVarDecl) -> bool {
    &&& default_matches_kind(decl.kind, decl.default)
    &&& decl.kind is Int ==> i32::MIN <= decl.default->Int_0 <= i32::MAX
    &&& (decl.kind is Enum || decl.kind is ValueSet) ==> decl.default->Int_0 >= 0
}

/// Rejection reason for a variable declaration.
#[derive(Clone, Copy, Debug, PartialEq, Eq, Structural)]
pub enum SysVarError {
    /// The default value's shape does not fit the declared kind, or is
    /// out of range for it.
    DefaultMismatch,
}

/// Encode one declaration as the record the host reads.
pub fn encode_sysvar(decl: &SysVarDecl) -> (r: Result<SysVarRecord, SysVarError>)
    ensures
        decl_well_formed(*decl) ==> r is Ok && record_matches(*decl, r->Ok_0),
        !decl_well_formed(*decl) ==> r == Err::<SysVarRecord, SysVarError>(
            SysVarError::DefaultMismatch,
        ),
{
    let mut flags: u32 = match decl.kind {
        SysVarKind::Bool => PLUGIN_VAR_BOOL,
        SysVarKind::ConstString => PLUGIN_VAR_STR,
        SysVarKind::String => PLUGIN_VAR_STR | PLUGIN_VAR_MEMALLOC,
        SysVarKind::Int => PLUGIN_VAR_INT,
        SysVarKind::LongLong => PLUGIN_VAR_LONGLONG,
        SysVarKind::Enum => PLUGIN_VAR_ENUM,
        SysVarKind::ValueSet => PLUGIN_VAR_SET,
    };
    let mut i: usize = 0;
    let n = decl.options.len();
    while i < n
        invariant
            0 <= i <= n,
            n == decl.options@.len(),
            flags == spec_decl_flags(decl.kind, decl.options@.subrange(0, i as int)),
        decreases n - i,
    {
        proof {
            let pre = decl.options@.subrange(0, i as int);
            let post = decl.options@.subrange(0, i + 1 as int);
            assert(post.drop_last() =~= pre);
        }
        flags = flags | decl.options[i].flag();
        i += 1;
    }
    proof {
        assert(decl.options@.subrange(0, n as int) =~= decl.options@);
    }
    let body = match (decl.kind, &decl.default) {
        (SysVarKind::Bool, SysVarDefault::Bool(b)) => SysVarBody::Bool { def_val: *b },
        (SysVarKind::ConstString, SysVarDefault::Str(s)) => SysVarBody::ConstStr {
            def_val: s.clone(),
        },
        (SysVarKind::String, SysVarDefault::Str(s)) => SysVarBody::Str { def_val: s.clone() },
        (SysVarKind::Int, SysVarDefault::Int(v)) => {
            if *v < i32::MIN as i64 || *v > i32::MAX as i64 {
                return Err(SysVarError::DefaultMismatch);
            }
            SysVarBody::Int { def_val: *v as i32, min_val: i32::MIN, max_val: i32::MAX, blk_sz: 1 }
        },
        (SysVarKind::LongLong, SysVarDefault::Int(v)) => SysVarBody::LongLong {
            def_val: *v,
            min_val: i64::MIN,
            max_val: i64::MAX,
            blk_sz: 1,
        },
        (SysVarKind::Enum, SysVarDefault::Int(v)) => {
            if *v < 0 {
                return Err(SysVarError::DefaultMismatch);
            }
            SysVarBody::Enum { def_val: *v as u64 }
        },
        (SysVarKind::ValueSet, SysVarDefault::Int(v)) => {
            if *v < 0 {
                return Err(SysVarError::DefaultMismatch);
            }
            SysVarBody::ValueSet { def_val: *v as u64 }
        },
        _ => {
            return Err(SysVarError::DefaultMismatch);
        },
    };
    Ok(
        SysVarRecord {
            flags,
            name: decl.name.clone(),
            comment: decl.description.clone(),
            has_check: false,
            has_update: false,
            value_ref: decl.ident,
            body,
        },
    )
}

/// The pointer array handed to the host: `None` when the plugin declares
/// no variables, else one slot per record followed by a null terminator.
pub open spec fn spec_sysvar_table_ok(
    decls: Seq<SysVarDecl>,
    table: Option<Vec<Option<SysVarRecord>>>,
) -> bool {
    if decls.len() == 0 {
        table is None
    } else {
        &&& table is Some
        &&& table->Some_0@.len() == decls.len() + 1
        &&& forall|i: int|
            0 <= i < decls.len() ==> #[trigger] table->Some_0@[i] is Some && record_matches(
                decls[i],
                table->Some_0@[i]->Some_0,
            )
        &&& table->Some_0@.last() is None
    }
}

/// Build the null-terminated pointer array for a declared variable list.
/// An empty list encodes as a null array pointer, as the host expects
/// for "no variables".
pub fn encode_sysvar_table(decls: &Vec<SysVarDecl>) -> (r: Result<
    Option<Vec<Option<SysVarRecord>>>,
    SysVarError,
>)
    ensures
        r is Ok <==> (forall|i: int| 0 <= i < decls@.len() ==> decl_well_formed(#[trigger] decls@[i])),
        r matches Ok(t) ==> spec_sysvar_table_ok(decls@, t),
        r is Err ==> r == Err::<Option<Vec<Option<SysVarRecord>>>, SysVarError>(
            SysVarError::DefaultMismatch,
        ),
{
    if decls.len() == 0 {
        return Ok(None);
    }
    let mut out: Vec<Option<SysVarRecord>> = Vec::new();
    let n = decls.len();
    let mut i: usize = 0;
    while i < n
        invariant
            0 <= i <= n,
            n == decls@.len(),
            out@.len() == i,
            forall|j: int|
                0 <= j < i ==> #[trigger] out@[j] is Some && record_matches(
                    decls@[j],
                    out@[j]->Some_0,
                ),
            forall|j: int| 0 <= j < i ==> decl_well_formed(#[trigger] decls@[j]),
        decreases n - i,
    {
        match encode_sysvar(&decls[i]) {
            Ok(rec) => {
                out.push(Some(rec));
            },
            Err(e) => {
                proof {
                    assert(!decl_well_formed(decls@[i as int]));
                }
                return Err(e);
            },
        }
        i += 1;
    }
    out.push(None);
    Ok(Some(out))
}

} // verus!
