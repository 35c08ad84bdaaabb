//! The registration builder: from a declarative plugin description to
//! the descriptor records the host loader reads.
//!
//! A plugin declaration is a list of fields (name, author, version,
//! capability settings, variables) in a canonical order. The builder
//! rejects, before anything else is generated, a declaration whose
//! fields are out of order, a field combination invalid for the plugin
//! kind (a required field missing, a field the kind does not take), a
//! malformed version string, and an ill-formed variable declaration.

use vstd::prelude::*;

use crate::descriptor::{
    is_null_record, new_null_plugin_st, spec_license_registration, spec_maturity_registration,
    spec_ptype_registration, CryptTrampoline, EncLenTrampoline, EncryptionVtable, InitTrampoline,
    KeyMgrTrampoline, License, Maturity, PluginDescriptor, PluginRegistration, PluginType, TypeTag,
    MARIADB_ENCRYPTION_INTERFACE_VERSION, MARIA_PLUGIN_INTERFACE_VERSION, PLUGIN_DESCRIPTOR_SIZE,
};
use crate::sysvar::{decl_well_formed, encode_sysvar_table, spec_sysvar_table_ok, SysVarDecl,
    SysVarError, SysVarRecord};
use crate::version::{spec_version_int, valid_version_string, version_int, VersionError};
use vstd::utf8::encode_utf8;

verus! {

/// A field a plugin declaration may set, in canonical order.
#[derive(Clone, Copy, Debug, PartialEq, Eq, Structural)]
pub enum FieldId {
    Ptype,
    Name,
    Author,
    Description,
    License,
    Maturity,
    Version,
    Init,
    Encryption,
    Decryption,
    Sysvars,
}

/// Canonical position of a field in a declaration.
pub open spec fn spec_field_rank(f: FieldId) -> int {
    match f {
        FieldId::Ptype => 0,
        FieldId::Name => 1,
        FieldId::Author => 2,
        FieldId::Description => 3,
        FieldId::License => 4,
        FieldId::Maturity => 5,
        FieldId::Version => 6,
        FieldId::Init => 7,
        FieldId::Encryption => 8,
        FieldId::Decryption => 9,
        FieldId::Sysvars => 10,
    }
}

/// Canonical position of a field in a declaration.
pub fn field_rank(f: FieldId) -> (r: u8)
    ensures
        r as int == spec_field_rank(f),
{
    match f {
        FieldId::Ptype => 0,
        FieldId::Name => 1,
        FieldId::Author => 2,
        FieldId::Description => 3,
        FieldId::License => 4,
        FieldId::Maturity => 5,
        FieldId::Version => 6,
        FieldId::Init => 7,
        FieldId::Encryption => 8,
        FieldId::Decryption => 9,
        FieldId::Sysvars => 10,
    }
}

/// The fields every plugin kind must declare.
pub open spec fn spec_always_required() -> Seq<FieldId> {
    seq![
        FieldId::Ptype,
        FieldId::Name,
        FieldId::Author,
        FieldId::Description,
        FieldId::License,
        FieldId::Maturity,
        FieldId::Version,
    ]
}

/// Whether a field is required for every plugin kind.
pub fn is_always_required(f: FieldId) -> (r: bool)
    ensures
        r == spec_always_required().contains(f),
{
    proof {
        assert(spec_always_required()[0] == FieldId::Ptype);
        assert(spec_always_required()[1] == FieldId::Name);
        assert(spec_always_required()[2] == FieldId::Author);
        assert(spec_always_required()[3] == FieldId::Description);
        assert(spec_always_required()[4] == FieldId::License);
        assert(spec_always_required()[5] == FieldId::Maturity);
        assert(spec_always_required()[6] == FieldId::Version);
    }
    match f {
        FieldId::Ptype => true,
        FieldId::Name => true,
        FieldId::Author => true,
        FieldId::Description => true,
        FieldId::License => true,
        FieldId::Maturity => true,
        FieldId::Version => true,
        FieldId::Init => false,
        FieldId::Encryption => false,
        FieldId::Decryption => false,
        FieldId::Sysvars => false,
    }
}

/// Whether `v` holds `f`.
pub fn contains_field(v: &Vec<FieldId>, f: FieldId) -> (r: bool)
    ensures
        r == v@.contains(f),
{
    let mut i: usize = 0;
    let n = v.len();
    while i < n
        invariant
            0 <= i <= n,
            n == v@.len(),
            forall|j: int| 0 <= j < i ==> v@[j] != f,
        decreases n - i,
    {
        if v[i] == f {
            return true;
        }
        i += 1;
    }
    false
}

/// The value given for a field. Each field takes one shape; anything
/// else is rejected when the declaration is parsed.
#[derive(Clone, Debug)]
pub enum FieldArg {
    /// A plugin type, for the `ptype` field.
    Ptype(PluginType),
    /// A string literal, for `name`, `author`, `description`, `version`.
    Str(String),
    /// A license, for the `license` field.
    Lic(License),
    /// A maturity level, for the `maturity` field.
    Mat(Maturity),
    /// A concrete type's tag, for `init`, `encryption`, `decryption`.
    Ty(TypeTag),
    /// A boolean, for the `encryption` field.
    Flag(bool),
    /// A variable list, for the `variables` field.
    Vars(Vec<SysVarDecl>),
}

/// One declared field: which field, and the value given for it.
#[derive(Clone, Debug)]
pub struct PluginField {
    pub id: FieldId,
    pub arg: FieldArg,
}

/// The value's shape fits the field.
pub open spec fn arg_well_kinded(f: PluginField) -> bool {
    match f.id {
        FieldId::Ptype => f.arg is Ptype,
        FieldId::Name => f.arg is Str,
        FieldId::Author => f.arg is Str,
        FieldId::Description => f.arg is Str,
        FieldId::License => f.arg is Lic,
        FieldId::Maturity => f.arg is Mat,
        FieldId::Version => f.arg is Str,
        FieldId::Init => f.arg is Ty,
        FieldId::Encryption => f.arg is Ty || f.arg is Flag,
        FieldId::Decryption => f.arg is Ty,
        FieldId::Sysvars => f.arg is Vars,
    }
}

/// The field identifiers of a declaration, in the order written.
pub open spec fn spec_field_ids(fields: Seq<PluginField>) -> Seq<FieldId> {
    fields.map_values(|f: PluginField| f.id)
}

/// Fields appear in strictly increasing canonical order (so no field
/// repeats and the declaration is deterministic and diffable).
pub open spec fn fields_in_order(ids: Seq<FieldId>) -> bool {
    forall|k: int|
        0 <= k < ids.len() - 1 ==> spec_field_rank(#[trigger] ids[k]) < spec_field_rank(ids[k + 1])
}

/// In an ordered declaration ranks grow over any distance.
pub proof fn lemma_order_monotone(ids: Seq<FieldId>, j: int, k: int)
    requires
        fields_in_order(ids),
        0 <= j < k < ids.len(),
    ensures
        spec_field_rank(ids[j]) < spec_field_rank(ids[k]),
    decreases k - j,
{
    if j + 1 < k {
        lemma_order_monotone(ids, j + 1, k);
    }
}

/// The encryption setting of a declaration: a flag selecting the main
/// type or the builtin scheme, or a dedicated cipher type.
#[derive(Clone, Copy, Debug, PartialEq, Eq, Structural)]
pub enum EncryptionArg {
    /// `true`: the main type is the cipher; `false`: use the host's
    /// builtin encryption.
    Flag(bool),
    /// A dedicated cipher type.
    Ty(TypeTag),
}

/// A parsed plugin declaration: the main type plus every field that was
/// set.
#[derive(Clone, Debug)]
pub struct PluginInfo {
    /// The main type the declaration registers.
    pub main_ty: TypeTag,
    pub ptype: Option<PluginType>,
    pub name: Option<String>,
    pub author: Option<String>,
    pub description: Option<String>,
    pub license: Option<License>,
    pub maturity: Option<Maturity>,
    pub version: Option<String>,
    pub init: Option<TypeTag>,
    pub encryption: Option<EncryptionArg>,
    pub decryption: Option<TypeTag>,
    pub variables: Option<Vec<SysVarDecl>>,
}

/// Whether a field was set in a parsed declaration.
pub open spec fn field_present(info: PluginInfo, f: FieldId) -> bool {
    match f {
        FieldId::Ptype => info.ptype is Some,
        FieldId::Name => info.name is Some,
        FieldId::Author => info.author is Some,
        FieldId::Description => info.description is Some,
        FieldId::License => info.license is Some,
        FieldId::Maturity => info.maturity is Some,
        FieldId::Version => info.version is Some,
        FieldId::Init => info.init is Some,
        FieldId::Encryption => info.encryption is Some,
        FieldId::Decryption => info.decryption is Some,
        FieldId::Sysvars => info.variables is Some,
    }
}

/// The parsed declaration holds exactly the given field's value in the
/// given field's slot.
pub open spec fn field_assigned(info: PluginInfo, f: PluginField) -> bool {
    match f.id {
        FieldId::Ptype => info.ptype == Some(f.arg->Ptype_0),
        FieldId::Name => info.name is Some && info.name->0@ == f.arg->Str_0@,
        FieldId::Author => info.author is Some && info.author->0@ == f.arg->Str_0@,
        FieldId::Description => info.description is Some && info.description->0@ == f.arg->Str_0@,
        FieldId::License => info.license == Some(f.arg->Lic_0),
        FieldId::Maturity => info.maturity == Some(f.arg->Mat_0),
        FieldId::Version => info.version is Some && info.version->0@ == f.arg->Str_0@,
        FieldId::Init => info.init == Some(f.arg->Ty_0),
        FieldId::Encryption => info.encryption == Some(
            if f.arg is Ty {
                EncryptionArg::Ty(f.arg->Ty_0)
            } else {
                EncryptionArg::Flag(f.arg->Flag_0)
            },
        ),
        FieldId::Decryption => info.decryption == Some(f.arg->Ty_0),
        FieldId::Sysvars => info.variables is Some && info.variables->0@ == f.arg->Vars_0@,
    }
}

/// Rejection reason for a plugin declaration.
#[derive(Clone, Copy, Debug, PartialEq, Eq, Structural)]
pub enum RegistrationError {
    /// The fields are not in the canonical declaration order.
    FieldsOutOfOrder,
    /// A field's value has the wrong shape for that field.
    WrongArgKind(FieldId),
    /// A field required for the plugin kind was not declared.
    MissingField(FieldId),
    /// A field the plugin kind does not take was declared.
    UnexpectedField(FieldId),
    /// The version string is malformed.
    BadVersion(VersionError),
    /// A decryption type was declared without an encryption type.
    DecryptionWithoutEncryption,
    /// A variable declaration is ill-formed.
    BadSysVar(SysVarError),
}

impl PluginInfo {
    /// A fresh declaration for a main type, with no fields set.
    pub fn new(main_ty: TypeTag) -> (r: PluginInfo)
        ensures
            r.main_ty == main_ty,
            forall|f: FieldId| !field_present(r, f),
    {
        let r = PluginInfo {
            main_ty,
            ptype: None,
            name: None,
            author: None,
            description: None,
            license: None,
            maturity: None,
            version: None,
            init: None,
            encryption: None,
            decryption: None,
            variables: None,
        };
        proof {
            assert forall|f: FieldId| !field_present(r, f) by {
                match f {
                    FieldId::Ptype => {},
                    FieldId::Name => {},
                    FieldId::Author => {},
                    FieldId::Description => {},
                    FieldId::License => {},
                    FieldId::Maturity => {},
                    FieldId::Version => {},
                    FieldId::Init => {},
                    FieldId::Encryption => {},
                    FieldId::Decryption => {},
                    FieldId::Sysvars => {},
                }
            }
        }
        r
    }

    /// Parse a declared field list: every value must fit its field, and
    /// the fields must stand in canonical order (which also rules out a
    /// repeated field). On success each declared field's value is in
    /// place and nothing else is set.
    pub fn parse(main_ty: TypeTag, fields: Vec<PluginField>) -> (r: Result<
        PluginInfo,
        RegistrationError,
    >)
        ensures
            r is Ok <==> (forall|j: int|
                0 <= j < fields@.len() ==> arg_well_kinded(#[trigger] fields@[j])) && fields_in_order(
                spec_field_ids(fields@),
            ),
            r matches Err(RegistrationError::WrongArgKind(f)) ==> exists|j: int|
                0 <= j < fields@.len() && !arg_well_kinded(#[trigger] fields@[j]) && fields@[j].id
                    == f,
            r is Err ==> r matches Err(RegistrationError::WrongArgKind(_)) || r == Err::<
                PluginInfo,
                RegistrationError,
            >(RegistrationError::FieldsOutOfOrder),
            r matches Ok(info) ==> {
                &&& info.main_ty == main_ty
                &&& forall|j: int|
                    0 <= j < fields@.len() ==> field_assigned(info, #[trigger] fields@[j])
                &&& forall|f: FieldId|
                    #[trigger] field_present(info, f) ==> spec_field_ids(fields@).contains(f)
            },
    {
        let ghost ids = spec_field_ids(fields@);
        let n = fields.len();
        // Every value must fit its field.
        let mut i: usize = 0;
        while i < n
            invariant
                0 <= i <= n,
                n == fields@.len(),
                forall|j: int| 0 <= j < i ==> arg_well_kinded(#[trigger] fields@[j]),
            decreases n - i,
        {
            let ok = match (&fields[i].id, &fields[i].arg) {
                (FieldId::Ptype, FieldArg::Ptype(_)) => true,
                (FieldId::Name, FieldArg::Str(_)) => true,
                (FieldId::Author, FieldArg::Str(_)) => true,
                (FieldId::Description, FieldArg::Str(_)) => true,
                (FieldId::License, FieldArg::Lic(_)) => true,
                (FieldId::Maturity, FieldArg::Mat(_)) => true,
                (FieldId::Version, FieldArg::Str(_)) => true,
                (FieldId::Init, FieldArg::Ty(_)) => true,
                (FieldId::Encryption, FieldArg::Ty(_)) => true,
                (FieldId::Encryption, FieldArg::Flag(_)) => true,
                (FieldId::Decryption, FieldArg::Ty(_)) => true,
                (FieldId::Sysvars, FieldArg::Vars(_)) => true,
                _ => false,
            };
            if !ok {
                return Err(RegistrationError::WrongArgKind(fields[i].id));
            }
            i += 1;
        }
        // The fields must stand in canonical order.
        let mut order: Vec<FieldId> = Vec::new();
        let mut i: usize = 0;
        while i < n
            invariant
                0 <= i <= n,
                n == fields@.len(),
                ids == spec_field_ids(fields@),
                order@.len() == i,
                forall|j: int| 0 <= j < i ==> order@[j] == ids[j],
            decreases n - i,
        {
            proof {
                assert(ids.len() == fields@.len());
                assert(ids[i as int] == fields@[i as int].id);
            }
            order.push(fields[i].id);
            i += 1;
        }
        proof {
            assert(order@ =~= ids);
        }
        if let Err(e) = verify_field_order(&order) {
            return Err(e);
        }
        // Assign each field's value. Order being strict, no slot is set
        // twice, so the direction of this walk does not matter.
        let ghost fseq = fields@;
        let mut info = PluginInfo::new(main_ty);
        let mut rest = fields;
        while rest.len() > 0
            invariant
                rest@ =~= fseq.subrange(0, rest@.len() as int),
                rest@.len() <= fseq.len() == n,
                ids == spec_field_ids(fseq),
                fields_in_order(ids),
                forall|j: int| 0 <= j < n ==> arg_well_kinded(#[trigger] fseq[j]),
                info.main_ty == main_ty,
                forall|j: int|
                    rest@.len() <= j < n ==> field_assigned(info, #[trigger] fseq[j]),
                forall|f: FieldId|
                    #[trigger] field_present(info, f) ==> exists|j: int|
                        rest@.len() <= j < n && ids[j] == f,
            decreases rest@.len(),
        {
            let ghost pos = rest@.len() - 1;
            let ghost pre = info;
            let field = rest.pop().unwrap();
            proof {
                assert(field == fseq[pos]);
                assert(rest@ =~= fseq.subrange(0, pos));
                assert(arg_well_kinded(fseq[pos]));
            }
            match (field.id, field.arg) {
                (FieldId::Ptype, FieldArg::Ptype(v)) => {
                    info.ptype = Some(v);
                },
                (FieldId::Name, FieldArg::Str(v)) => {
                    info.name = Some(v);
                },
                (FieldId::Author, FieldArg::Str(v)) => {
                    info.author = Some(v);
                },
                (FieldId::Description, FieldArg::Str(v)) => {
                    info.description = Some(v);
                },
                (FieldId::License, FieldArg::Lic(v)) => {
                    info.license = Some(v);
                },
                (FieldId::Maturity, FieldArg::Mat(v)) => {
                    info.maturity = Some(v);
                },
                (FieldId::Version, FieldArg::Str(v)) => {
                    info.version = Some(v);
                },
                (FieldId::Init, FieldArg::Ty(v)) => {
                    info.init = Some(v);
                },
                (FieldId::Encryption, FieldArg::Ty(v)) => {
                    info.encryption = Some(EncryptionArg::Ty(v));
                },
                (FieldId::Encryption, FieldArg::Flag(v)) => {
                    info.encryption = Some(EncryptionArg::Flag(v));
                },
                (FieldId::Decryption, FieldArg::Ty(v)) => {
                    info.decryption = Some(v);
                },
                (FieldId::Sysvars, FieldArg::Vars(v)) => {
                    info.variables = Some(v);
                },
                _ => {
                    proof {
                        assert(false);
                    }
                },
            }
            proof {
                assert(field_assigned(info, fseq[pos]));
                assert forall|j: int| pos < j < n implies field_assigned(
                    info,
                    #[trigger] fseq[j],
                ) by {
                    lemma_order_monotone(ids, pos, j);
                    assert(ids[pos] == fseq[pos].id && ids[j] == fseq[j].id);
                    assert(fseq[j].id != fseq[pos].id);
                    assert(field_assigned(pre, fseq[j]));
                }
                assert forall|f: FieldId| #[trigger] field_present(info, f) implies exists|j: int|
                    pos <= j < n && ids[j] == f by {
                    if field_present(pre, f) {
                        let j = choose|j: int| pos + 1 <= j < n && ids[j] == f;
                        assert(pos <= j < n && ids[j] == f);
                    } else {
                        assert(ids[pos] == f);
                    }
                }
            }
        }
        Ok(info)
    }
}

/// Check that the declared fields stand in the canonical order, each at
/// most once.
pub fn verify_field_order(fields: &Vec<FieldId>) -> (r: Result<(), RegistrationError>)
    ensures
        r is Ok <==> fields_in_order(fields@),
        r is Err ==> r == Err::<(), RegistrationError>(RegistrationError::FieldsOutOfOrder),
{
    let n = fields.len();
    if n == 0 {
        return Ok(());
    }
    let mut i: usize = 0;
    while i < n - 1
        invariant
            0 <= i <= n - 1,
            n == fields@.len(),
            forall|k: int|
                0 <= k < i ==> spec_field_rank(#[trigger] fields@[k]) < spec_field_rank(
                    fields@[k + 1],
                ),
        decreases n - i,
    {
        if field_rank(fields[i]) >= field_rank(fields[i + 1]) {
            return Err(RegistrationError::FieldsOutOfOrder);
        }
        i += 1;
    }
    Ok(())
}


/// A field is required: required for every kind, or required for this
/// kind.
pub open spec fn spec_required(required: Seq<FieldId>, f: FieldId) -> bool {
    spec_always_required().contains(f) || required.contains(f)
}

/// Some required field was not declared.
pub open spec fn spec_missing_required(info: PluginInfo, required: Seq<FieldId>) -> bool {
    exists|f: FieldId| spec_required(required, f) && !field_present(info, f)
}

/// Some declared field is neither required nor optional for the kind.
pub open spec fn spec_has_unexpected(
    info: PluginInfo,
    required: Seq<FieldId>,
    optional: Seq<FieldId>,
) -> bool {
    exists|f: FieldId|
        field_present(info, f) && !spec_required(required, f) && !optional.contains(f)
}

/// Every field in canonical order.
pub open spec fn spec_all_fields() -> Seq<FieldId> {
    seq![
        FieldId::Ptype,
        FieldId::Name,
        FieldId::Author,
        FieldId::Description,
        FieldId::License,
        FieldId::Maturity,
        FieldId::Version,
        FieldId::Init,
        FieldId::Encryption,
        FieldId::Decryption,
        FieldId::Sysvars,
    ]
}

/// The canonical list names every field.
pub proof fn lemma_all_fields_complete()
    ensures
        forall|f: FieldId| #[trigger] spec_all_fields().contains(f),
{
    assert forall|f: FieldId| #[trigger] spec_all_fields().contains(f) by {
        match f {
            FieldId::Ptype => assert(spec_all_fields()[0] == f),
            FieldId::Name => assert(spec_all_fields()[1] == f),
            FieldId::Author => assert(spec_all_fields()[2] == f),
            FieldId::Description => assert(spec_all_fields()[3] == f),
            FieldId::License => assert(spec_all_fields()[4] == f),
            FieldId::Maturity => assert(spec_all_fields()[5] == f),
            FieldId::Version => assert(spec_all_fields()[6] == f),
            FieldId::Init => assert(spec_all_fields()[7] == f),
            FieldId::Encryption => assert(spec_all_fields()[8] == f),
            FieldId::Decryption => assert(spec_all_fields()[9] == f),
            FieldId::Sysvars => assert(spec_all_fields()[10] == f),
        }
    }
}

/// Every field in canonical order.
pub fn all_fields() -> (r: Vec<FieldId>)
    ensures
        r@ =~= spec_all_fields(),
{
    let mut v: Vec<FieldId> = Vec::new();
    v.push(FieldId::Ptype);
    v.push(FieldId::Name);
    v.push(FieldId::Author);
    v.push(FieldId::Description);
    v.push(FieldId::License);
    v.push(FieldId::Maturity);
    v.push(FieldId::Version);
    v.push(FieldId::Init);
    v.push(FieldId::Encryption);
    v.push(FieldId::Decryption);
    v.push(FieldId::Sysvars);
    v
}

/// The fields an encryption plugin must declare beyond the common set.
pub open spec fn spec_encryption_required() -> Seq<FieldId> {
    seq![FieldId::Encryption]
}

/// The fields an encryption plugin may declare beyond the required set.
pub open spec fn spec_encryption_optional() -> Seq<FieldId> {
    seq![FieldId::Init, FieldId::Decryption, FieldId::Sysvars]
}

/// The fields an encryption plugin must declare beyond the common set.
pub fn encryption_required_fields() -> (r: Vec<FieldId>)
    ensures
        r@ =~= spec_encryption_required(),
{
    let mut v: Vec<FieldId> = Vec::new();
    v.push(FieldId::Encryption);
    v
}

/// The fields an encryption plugin may declare beyond the required set.
pub fn encryption_optional_fields() -> (r: Vec<FieldId>)
    ensures
        r@ =~= spec_encryption_optional(),
{
    let mut v: Vec<FieldId> = Vec::new();
    v.push(FieldId::Init);
    v.push(FieldId::Decryption);
    v.push(FieldId::Sysvars);
    v
}

/// Every variable declaration, if any, is well formed.
pub open spec fn spec_sysvars_ok(info: PluginInfo) -> bool {
    match info.variables {
        Some(ds) => forall|i: int| 0 <= i < ds@.len() ==> decl_well_formed(#[trigger] ds@[i]),
        None => true,
    }
}

/// The declared variable list, empty when the field was not set.
pub open spec fn spec_decls_of(info: PluginInfo) -> Seq<SysVarDecl> {
    match info.variables {
        Some(ds) => ds@,
        None => Seq::empty(),
    }
}

/// A decryption type is declared although encryption is a flag, so no
/// encryption type stands beside it.
pub open spec fn spec_enc_conflict(info: PluginInfo) -> bool {
    info.encryption matches Some(EncryptionArg::Flag(_)) && info.decryption is Some
}

/// The declared version string is a valid two-part version.
pub open spec fn spec_version_ok(info: PluginInfo) -> bool {
    info.version matches Some(v) && valid_version_string(encode_utf8(v@))
}

/// The concrete encryption and decryption types the declaration selects:
/// `None` means the host's builtin scheme.
pub open spec fn spec_enc_dec_types(info: PluginInfo) -> Option<(TypeTag, TypeTag)> {
    match info.encryption->Some_0 {
        EncryptionArg::Flag(b) => if b {
            Some((info.main_ty, info.main_ty))
        } else {
            None
        },
        EncryptionArg::Ty(e) => Some(
            (
                e,
                if info.decryption is Some {
                    info.decryption->Some_0
                } else {
                    e
                },
            ),
        ),
    }
}

/// The init (and deinit) trampoline the declaration selects.
pub open spec fn spec_init_trampoline(info: PluginInfo) -> InitTrampoline {
    match info.init {
        Some(t) => InitTrampoline::WithInit { main: info.main_ty, init: t },
        None => InitTrampoline::Default { main: info.main_ty },
    }
}

/// The encryption capability table the declaration builds: the two
/// key-management slots always populated for the main type; the five
/// crypto slots populated exactly when the declaration names cipher
/// types, null otherwise so the host falls back to builtin encryption.
pub open spec fn encryption_vtable_matches(info: PluginInfo, ev: EncryptionVtable) -> bool {
    &&& ev.interface_version == MARIADB_ENCRYPTION_INTERFACE_VERSION
    &&& ev.get_latest_key_version == Some(KeyMgrTrampoline { main: info.main_ty })
    &&& ev.get_key == Some(KeyMgrTrampoline { main: info.main_ty })
    &&& match spec_enc_dec_types(info) {
        None => {
            &&& ev.crypt_ctx_size is None
            &&& ev.crypt_ctx_init is None
            &&& ev.crypt_ctx_update is None
            &&& ev.crypt_ctx_finish is None
            &&& ev.encrypted_length is None
        },
        Some((e, d)) => {
            &&& ev.crypt_ctx_size == Some(CryptTrampoline { enc: e, dec: d })
            &&& ev.crypt_ctx_init == Some(CryptTrampoline { enc: e, dec: d })
            &&& ev.crypt_ctx_update == Some(CryptTrampoline { enc: e, dec: d })
            &&& ev.crypt_ctx_finish == Some(CryptTrampoline { enc: e, dec: d })
            &&& ev.encrypted_length == Some(EncLenTrampoline { enc: e })
        },
    }
}

/// The descriptor record a declaration builds: identity strings copied,
/// codes from the declared type, license and maturity, the packed
/// version integer, the capability table, the init trampolines, and the
/// variable pointer array; the status-variable slot stays null.
pub open spec fn descriptor_matches(info: PluginInfo, d: PluginDescriptor) -> bool {
    &&& d.ptype == spec_ptype_registration(info.ptype->Some_0)
    &&& d.info matches Some(ev) && encryption_vtable_matches(info, ev)
    &&& d.name matches Some(n) && n@ == info.name->Some_0@
    &&& d.author matches Some(a) && a@ == info.author->Some_0@
    &&& d.descr matches Some(ds) && ds@ == info.description->Some_0@
    &&& d.license == spec_license_registration(info.license->Some_0)
    &&& d.init == Some(spec_init_trampoline(info))
    &&& d.deinit == Some(spec_init_trampoline(info))
    &&& d.version == spec_version_int(encode_utf8(info.version->Some_0@)) as u32
    &&& d.status_vars is None
    &&& spec_sysvar_table_ok(spec_decls_of(info), d.system_vars)
    &&& d.version_info matches Some(v) && v@ == info.version->Some_0@
    &&& d.maturity == spec_maturity_registration(info.maturity->Some_0)
}

impl PluginInfo {
    /// Whether a field was set.
    pub fn has_field(&self, f: FieldId) -> (r: bool)
        ensures
            r == field_present(*self, f),
    {
        match f {
            FieldId::Ptype => self.ptype.is_some(),
            FieldId::Name => self.name.is_some(),
            FieldId::Author => self.author.is_some(),
            FieldId::Description => self.description.is_some(),
            FieldId::License => self.license.is_some(),
            FieldId::Maturity => self.maturity.is_some(),
            FieldId::Version => self.version.is_some(),
            FieldId::Init => self.init.is_some(),
            FieldId::Encryption => self.encryption.is_some(),
            FieldId::Decryption => self.decryption.is_some(),
            FieldId::Sysvars => self.variables.is_some(),
        }
    }

    /// Check the declared field set against a plugin kind's required and
    /// optional fields: every required field must be present, and
    /// nothing outside the required and optional sets may be present.
    pub fn validate_correct_fields(&self, required: &Vec<FieldId>, optional: &Vec<FieldId>) -> (r:
        Result<(), RegistrationError>)
        ensures
            r is Ok <==> !spec_missing_required(*self, required@) && !spec_has_unexpected(
                *self,
                required@,
                optional@,
            ),
            (r matches Err(RegistrationError::MissingField(_))) <==> spec_missing_required(
                *self,
                required@,
            ),
            r matches Err(RegistrationError::MissingField(f)) ==> spec_required(required@, f)
                && !field_present(*self, f),
            (r matches Err(RegistrationError::UnexpectedField(_))) <==> !spec_missing_required(
                *self,
                required@,
            ) && spec_has_unexpected(*self, required@, optional@),
            r matches Err(RegistrationError::UnexpectedField(f)) ==> field_present(*self, f)
                && !spec_required(required@, f) && !optional@.contains(f),
    {
        let all = all_fields();
        let n = all.len();
        let mut i: usize = 0;
        while i < n
            invariant
                0 <= i <= n,
                all@ =~= spec_all_fields(),
                n == all@.len(),
                forall|j: int|
                    0 <= j < i ==> !(spec_required(required@, #[trigger] all@[j]) && !field_present(
                        *self,
                        all@[j],
                    )),
            decreases n - i,
        {
            let f = all[i];
            if (is_always_required(f) || contains_field(required, f)) && !self.has_field(f) {
                return Err(RegistrationError::MissingField(f));
            }
            i += 1;
        }
        proof {
            lemma_all_fields_complete();
            assert forall|f: FieldId| !(spec_required(required@, f) && !field_present(
                *self,
                f,
            )) by {
                let j = choose|j: int| 0 <= j < spec_all_fields().len() && spec_all_fields()[j]
                    == f;
                assert(all@[j] == f);
            }
        }
        let mut i: usize = 0;
        while i < n
            invariant
                0 <= i <= n,
                all@ =~= spec_all_fields(),
                n == all@.len(),
                !spec_missing_required(*self, required@),
                forall|j: int|
                    0 <= j < i ==> !(field_present(*self, #[trigger] all@[j]) && !spec_required(
                        required@,
                        all@[j],
                    ) && !optional@.contains(all@[j])),
            decreases n - i,
        {
            let f = all[i];
            if self.has_field(f) && !(is_always_required(f) || contains_field(required, f))
                && !contains_field(optional, f) {
                return Err(RegistrationError::UnexpectedField(f));
            }
            i += 1;
        }
        proof {
            lemma_all_fields_complete();
            assert forall|f: FieldId| !(field_present(*self, f) && !spec_required(required@, f)
                && !optional@.contains(f)) by {
                let j = choose|j: int| 0 <= j < spec_all_fields().len() && spec_all_fields()[j]
                    == f;
                assert(all@[j] == f);
            }
        }
        Ok(())
    }

    /// Check the declared field set for an encryption plugin.
    pub fn validate_as_encryption(&self) -> (r: Result<(), RegistrationError>)
        ensures
            r is Ok <==> !spec_missing_required(*self, spec_encryption_required())
                && !spec_has_unexpected(
                *self,
                spec_encryption_required(),
                spec_encryption_optional(),
            ),
            (r matches Err(RegistrationError::MissingField(_))) <==> spec_missing_required(
                *self,
                spec_encryption_required(),
            ),
            (r matches Err(RegistrationError::UnexpectedField(_))) <==> !spec_missing_required(
                *self,
                spec_encryption_required(),
            ) && spec_has_unexpected(
                *self,
                spec_encryption_required(),
                spec_encryption_optional(),
            ),
            r is Err ==> (r matches Err(RegistrationError::MissingField(_)) || r matches Err(
                RegistrationError::UnexpectedField(_),
            )),
    {
        let req = encryption_required_fields();
        let opt = encryption_optional_fields();
        let r = self.validate_correct_fields(&req, &opt);
        r
    }

    /// Build the null-terminated variable pointer array for the declared
    /// list; the field stays null when no variables are declared.
    pub fn make_variables(&self) -> (r: Result<
        Option<Vec<Option<SysVarRecord>>>,
        RegistrationError,
    >)
        ensures
            r is Ok <==> spec_sysvars_ok(*self),
            r matches Ok(t) ==> spec_sysvar_table_ok(spec_decls_of(*self), t),
            r is Err ==> r matches Err(RegistrationError::BadSysVar(_)),
    {
        match &self.variables {
            None => Ok(None),
            Some(decls) => {
                match encode_sysvar_table(decls) {
                    Ok(t) => Ok(t),
                    Err(e) => Err(RegistrationError::BadSysVar(e)),
                }
            },
        }
    }

    /// Assemble the descriptor record of an encryption plugin. Rejected
    /// before anything is generated: a field set invalid for the kind, an
    /// ill-formed variable declaration, a decryption type beside a flag
    /// encryption setting, and a malformed version string.
    pub fn into_encryption_struct(self) -> (r: Result<PluginDef, RegistrationError>)
        ensures
            r is Ok <==> !spec_missing_required(self, spec_encryption_required())
                && !spec_has_unexpected(
                self,
                spec_encryption_required(),
                spec_encryption_optional(),
            ) && spec_sysvars_ok(self) && !spec_enc_conflict(self) && spec_version_ok(self),
            (r matches Err(RegistrationError::MissingField(_))) <==> spec_missing_required(
                self,
                spec_encryption_required(),
            ),
            (r matches Err(RegistrationError::UnexpectedField(_))) <==> !spec_missing_required(
                self,
                spec_encryption_required(),
            ) && spec_has_unexpected(
                self,
                spec_encryption_required(),
                spec_encryption_optional(),
            ),
            (r matches Err(RegistrationError::BadSysVar(_))) <==> !spec_missing_required(
                self,
                spec_encryption_required(),
            ) && !spec_has_unexpected(
                self,
                spec_encryption_required(),
                spec_encryption_optional(),
            ) && !spec_sysvars_ok(self),
            (r == Err::<PluginDef, RegistrationError>(
                RegistrationError::DecryptionWithoutEncryption,
            )) <==> !spec_missing_required(self, spec_encryption_required())
                && !spec_has_unexpected(
                self,
                spec_encryption_required(),
                spec_encryption_optional(),
            ) && spec_sysvars_ok(self) && spec_enc_conflict(self),
            (r matches Err(RegistrationError::BadVersion(_))) <==> !spec_missing_required(
                self,
                spec_encryption_required(),
            ) && !spec_has_unexpected(
                self,
                spec_encryption_required(),
                spec_encryption_optional(),
            ) && spec_sysvars_ok(self) && !spec_enc_conflict(self) && !spec_version_ok(self),
            r matches Ok(def) ==> def.name@ == self.name->Some_0@ && descriptor_matches(
                self,
                def.plugin,
            ),
    {
        if let Err(e) = self.validate_as_encryption() {
            return Err(e);
        }
        proof {
            assert(spec_encryption_required()[0] == FieldId::Encryption);
            assert(spec_always_required()[0] == FieldId::Ptype);
            assert(spec_always_required()[1] == FieldId::Name);
            assert(spec_always_required()[2] == FieldId::Author);
            assert(spec_always_required()[3] == FieldId::Description);
            assert(spec_always_required()[4] == FieldId::License);
            assert(spec_always_required()[5] == FieldId::Maturity);
            assert(spec_always_required()[6] == FieldId::Version);
            assert(field_present(self, FieldId::Ptype));
            assert(field_present(self, FieldId::Name));
            assert(field_present(self, FieldId::Author));
            assert(field_present(self, FieldId::Description));
            assert(field_present(self, FieldId::License));
            assert(field_present(self, FieldId::Maturity));
            assert(field_present(self, FieldId::Version));
            assert(field_present(self, FieldId::Encryption));
        }
        let system_vars = match self.make_variables() {
            Ok(t) => t,
            Err(e) => {
                return Err(e);
            },
        };
        let main_ty = self.main_ty;
        let enc_dec: Option<(u64, u64)> = match &self.encryption {
            Some(EncryptionArg::Flag(b)) => {
                if self.decryption.is_some() {
                    return Err(RegistrationError::DecryptionWithoutEncryption);
                }
                if *b {
                    Some((main_ty, main_ty))
                } else {
                    None
                }
            },
            Some(EncryptionArg::Ty(e)) => {
                let d = match &self.decryption {
                    Some(d) => *d,
                    None => *e,
                };
                Some((*e, d))
            },
            None => {
                proof {
                    assert(false);
                }
                None
            },
        };
        let info_table = match enc_dec {
            Some((e, d)) => EncryptionVtable {
                interface_version: MARIADB_ENCRYPTION_INTERFACE_VERSION,
                get_latest_key_version: Some(KeyMgrTrampoline { main: main_ty }),
                get_key: Some(KeyMgrTrampoline { main: main_ty }),
                crypt_ctx_size: Some(CryptTrampoline { enc: e, dec: d }),
                crypt_ctx_init: Some(CryptTrampoline { enc: e, dec: d }),
                crypt_ctx_update: Some(CryptTrampoline { enc: e, dec: d }),
                crypt_ctx_finish: Some(CryptTrampoline { enc: e, dec: d }),
                encrypted_length: Some(EncLenTrampoline { enc: e }),
            },
            None => EncryptionVtable {
                interface_version: MARIADB_ENCRYPTION_INTERFACE_VERSION,
                get_latest_key_version: Some(KeyMgrTrampoline { main: main_ty }),
                get_key: Some(KeyMgrTrampoline { main: main_ty }),
                crypt_ctx_size: None,
                crypt_ctx_init: None,
                crypt_ctx_update: None,
                crypt_ctx_finish: None,
                encrypted_length: None,
            },
        };
        let version_string = match self.version {
            Some(v) => v,
            None => {
                proof {
                    assert(false);
                }
                return Err(RegistrationError::FieldsOutOfOrder);
            },
        };
        let version_value = match version_int(version_string.as_str()) {
            Ok(v) => v,
            Err(e) => {
                return Err(RegistrationError::BadVersion(e));
            },
        };
        let name = match self.name {
            Some(v) => v,
            None => {
                proof {
                    assert(false);
                }
                return Err(RegistrationError::FieldsOutOfOrder);
            },
        };
        let author = match self.author {
            Some(v) => v,
            None => {
                proof {
                    assert(false);
                }
                return Err(RegistrationError::FieldsOutOfOrder);
            },
        };
        let description = match self.description {
            Some(v) => v,
            None => {
                proof {
                    assert(false);
                }
                return Err(RegistrationError::FieldsOutOfOrder);
            },
        };
        let license = match self.license {
            Some(v) => v,
            None => {
                proof {
                    assert(false);
                }
                return Err(RegistrationError::FieldsOutOfOrder);
            },
        };
        let maturity = match self.maturity {
            Some(v) => v,
            None => {
                proof {
                    assert(false);
                }
                return Err(RegistrationError::FieldsOutOfOrder);
            },
        };
        let ptype = match self.ptype {
            Some(v) => v,
            None => {
                proof {
                    assert(false);
                }
                return Err(RegistrationError::FieldsOutOfOrder);
            },
        };
        let init_tramp = match self.init {
            Some(t) => InitTrampoline::WithInit { main: main_ty, init: t },
            None => InitTrampoline::Default { main: main_ty },
        };
        let plugin = PluginDescriptor {
            ptype: ptype.to_ptype_registration(),
            info: Some(info_table),
            name: Some(name.clone()),
            author: Some(author),
            descr: Some(description),
            license: license.to_license_registration(),
            init: Some(init_tramp),
            deinit: Some(init_tramp),
            version: version_value as u32,
            status_vars: None,
            system_vars,
            version_info: Some(version_string),
            maturity: maturity.to_maturity_registration(),
        };
        Ok(PluginDef { name, plugin })
    }
}

/// A built plugin: its name and the descriptor record that registers it.
#[derive(Clone, Debug)]
pub struct PluginDef {
    /// The plugin's name, which also names the loader symbols.
    pub name: String,
    /// The assembled descriptor record.
    pub plugin: PluginDescriptor,
}

impl PluginDef {
    /// Emit everything the loader reads: the interface-version and
    /// record-size companion values, and the descriptor array terminated
    /// by the all-null sentinel.
    pub fn into_output(self) -> (r: PluginRegistration)
        ensures
            r.interface_version == MARIA_PLUGIN_INTERFACE_VERSION,
            r.sizeof_struct == PLUGIN_DESCRIPTOR_SIZE,
            r.plugins@.len() == 2,
            r.plugins@[0] == self.plugin,
            is_null_record(r.plugins@[1]),
    {
        let mut plugins: Vec<PluginDescriptor> = Vec::new();
        plugins.push(self.plugin);
        plugins.push(new_null_plugin_st());
        PluginRegistration {
            interface_version: MARIA_PLUGIN_INTERFACE_VERSION,
            sizeof_struct: PLUGIN_DESCRIPTOR_SIZE,
            plugins,
        }
    }
}

/// Whole registration path for an encryption plugin: parse the declared
/// fields, build the descriptor, and emit the loader-facing values. A
/// declaration that lacks a field required for the kind never reaches
/// emission.
pub fn register_encryption_plugin(main_ty: TypeTag, fields: Vec<PluginField>) -> (r: Result<
    PluginRegistration,
    RegistrationError,
>)
    ensures
        r matches Ok(reg) ==> crate::descriptor::registration_well_formed(reg)
            && reg.plugins@[0].info is Some && reg.plugins@[0].init is Some
            && reg.plugins@[0].deinit is Some,
        forall|f: FieldId|
            #[trigger] spec_required(spec_encryption_required(), f) && !spec_field_ids(
                fields@,
            ).contains(f) ==> r is Err,
{
    let ghost ids = spec_field_ids(fields@);
    let info = match PluginInfo::parse(main_ty, fields) {
        Ok(i) => i,
        Err(e) => {
            return Err(e);
        },
    };
    let def = match info.into_encryption_struct() {
        Ok(d) => d,
        Err(e) => {
            return Err(e);
        },
    };
    proof {
        assert forall|f: FieldId|
            #[trigger] spec_required(spec_encryption_required(), f) && !ids.contains(f)
                implies false by {
            assert(!field_present(info, f));
            assert(spec_missing_required(info, spec_encryption_required()));
        }
    }
    Ok(def.into_output())
}

} // verus!
