use std::alloc::Layout;
use std::marker::PhantomData;

use mariadb::descriptor::{
    loader_validate, new_null_plugin_st, InitTrampoline, License, LoadError, Maturity, PluginType,
    MARIADB_ENCRYPTION_INTERFACE_VERSION, MARIA_PLUGIN_INTERFACE_VERSION, PLUGIN_DESCRIPTOR_SIZE,
};
use mariadb::registration::{
    register_encryption_plugin, verify_field_order, FieldArg, FieldId, PluginField, PluginInfo,
    RegistrationError,
};
use mariadb::storage_error::{StorageError, HA_ERR_ERRORS};
use mariadb::sysvar::{
    encode_sysvar, SysVarBody, SysVarDecl, SysVarDefault, SysVarError, SysVarKind, SysVarOpt,
    PLUGIN_VAR_BOOL, PLUGIN_VAR_READONLY,
};
use mariadb::table::{Create, Table, TableShare};

fn field(id: FieldId, arg: FieldArg) -> PluginField {
    PluginField { id, arg }
}

fn full_declaration() -> Vec<PluginField> {
    vec![
        field(FieldId::Ptype, FieldArg::Ptype(PluginType::MariaEncryption)),
        field(FieldId::Name, FieldArg::Str("clevis_key_management".to_string())),
        field(FieldId::Author, FieldArg::Str("A plugin author".to_string())),
        field(FieldId::Description, FieldArg::Str("Key management plugin".to_string())),
        field(FieldId::License, FieldArg::Lic(License::Gpl)),
        field(FieldId::Maturity, FieldArg::Mat(Maturity::Experimental)),
        field(FieldId::Version, FieldArg::Str("0.1".to_string())),
        field(FieldId::Init, FieldArg::Ty(7)),
        field(FieldId::Encryption, FieldArg::Flag(false)),
    ]
}

#[test]
fn check_error_counts() {
    // Two codes of the host's range carry no name.
    assert_eq!(StorageError::all().len() + 2, HA_ERR_ERRORS as usize);
}

#[test]
fn test_layout() {
    assert_eq!(Layout::new::<Table<Create>>(), Layout::new::<TableShare<Create>>());
    assert_eq!(Layout::new::<TableShare<Create>>(), Layout::new::<PhantomData<Create>>());
}

#[test]
fn storage_error_codes_mirror_the_host_table() {
    assert_eq!(StorageError::KeyNotFound.code(), 120);
    assert_eq!(StorageError::EndOfFile.code(), 137);
    assert_eq!(StorageError::OutOfMemory.code(), 128);
    assert_eq!(StorageError::NoEncryption.code(), 199);
}

#[test]
fn sentinel_record_is_all_null() {
    let d = new_null_plugin_st();
    assert_eq!(d.ptype, 0);
    assert!(d.info.is_none());
    assert!(d.name.is_none());
    assert!(d.author.is_none());
    assert!(d.descr.is_none());
    assert_eq!(d.license, 0);
    assert!(d.init.is_none());
    assert!(d.deinit.is_none());
    assert_eq!(d.version, 0);
    assert!(d.status_vars.is_none());
    assert!(d.system_vars.is_none());
    assert!(d.version_info.is_none());
    assert_eq!(d.maturity, 0);
}

#[test]
fn loader_rejects_interface_skew() {
    let reg = register_encryption_plugin(1, full_declaration()).unwrap().clone();
    assert_eq!(loader_validate(&reg, MARIA_PLUGIN_INTERFACE_VERSION, PLUGIN_DESCRIPTOR_SIZE), Ok(()));
    assert_eq!(
        loader_validate(&reg, MARIA_PLUGIN_INTERFACE_VERSION + 1, PLUGIN_DESCRIPTOR_SIZE),
        Err(LoadError::InterfaceVersionMismatch)
    );
    assert_eq!(
        loader_validate(&reg, MARIA_PLUGIN_INTERFACE_VERSION, PLUGIN_DESCRIPTOR_SIZE + 8),
        Err(LoadError::DescriptorSizeMismatch)
    );
}

#[test]
fn registration_emits_descriptor_and_sentinel() {
    let reg = register_encryption_plugin(1, full_declaration()).unwrap();
    assert_eq!(reg.interface_version, MARIA_PLUGIN_INTERFACE_VERSION);
    assert_eq!(reg.sizeof_struct, PLUGIN_DESCRIPTOR_SIZE);
    assert_eq!(reg.plugins.len(), 2);

    let d = &reg.plugins[0];
    assert_eq!(d.ptype, 9);
    assert_eq!(d.name.as_deref(), Some("clevis_key_management"));
    assert_eq!(d.license, 1);
    assert_eq!(d.maturity, 1);
    assert_eq!(d.version, 0x0001);
    assert_eq!(d.version_info.as_deref(), Some("0.1"));
    assert!(d.system_vars.is_none());
    assert!(d.status_vars.is_none());

    let info = d.info.unwrap();
    assert_eq!(info.interface_version, MARIADB_ENCRYPTION_INTERFACE_VERSION);
    assert!(info.get_latest_key_version.is_some());
    assert!(info.get_key.is_some());
    // encryption: false selects the host's builtin scheme.
    assert!(info.crypt_ctx_size.is_none());
    assert!(info.crypt_ctx_init.is_none());
    assert!(info.crypt_ctx_update.is_none());
    assert!(info.crypt_ctx_finish.is_none());
    assert!(info.encrypted_length.is_none());

    let sentinel = &reg.plugins[1];
    assert!(sentinel.name.is_none());
    assert_eq!(sentinel.version, 0);
}

#[test]
fn missing_name_field_is_rejected() {
    let mut fields = full_declaration();
    fields.remove(1);
    match register_encryption_plugin(1, fields) {
        Err(RegistrationError::MissingField(f)) => assert_eq!(f, FieldId::Name),
        other => panic!("expected a missing-field rejection, got {other:?}"),
    }
}

#[test]
fn missing_encryption_field_is_rejected() {
    let mut fields = full_declaration();
    fields.pop();
    match register_encryption_plugin(1, fields) {
        Err(RegistrationError::MissingField(f)) => assert_eq!(f, FieldId::Encryption),
        other => panic!("expected a missing-field rejection, got {other:?}"),
    }
}

#[test]
fn out_of_order_fields_are_rejected() {
    let mut fields = full_declaration();
    fields.swap(0, 1);
    assert!(matches!(
        register_encryption_plugin(1, fields),
        Err(RegistrationError::FieldsOutOfOrder)
    ));
}

#[test]
fn repeated_field_is_rejected() {
    let mut fields = full_declaration();
    fields.push(field(FieldId::Encryption, FieldArg::Flag(false)));
    assert!(matches!(
        register_encryption_plugin(1, fields),
        Err(RegistrationError::FieldsOutOfOrder)
    ));
}

#[test]
fn wrong_argument_shape_is_rejected() {
    let mut fields = full_declaration();
    fields[1] = field(FieldId::Name, FieldArg::Flag(true));
    assert!(matches!(
        register_encryption_plugin(1, fields),
        Err(RegistrationError::WrongArgKind(FieldId::Name))
    ));
}

#[test]
fn malformed_version_string_is_rejected() {
    let mut fields = full_declaration();
    fields[6] = field(FieldId::Version, FieldArg::Str("0.999".to_string()));
    assert!(matches!(
        register_encryption_plugin(1, fields),
        Err(RegistrationError::BadVersion(_))
    ));
}

#[test]
fn decryption_beside_flag_encryption_is_rejected() {
    let mut fields = full_declaration();
    fields.push(field(FieldId::Decryption, FieldArg::Ty(9)));
    assert!(matches!(
        register_encryption_plugin(1, fields),
        Err(RegistrationError::DecryptionWithoutEncryption)
    ));
}

#[test]
fn dedicated_cipher_type_populates_crypto_slots() {
    let mut fields = full_declaration();
    fields[8] = field(FieldId::Encryption, FieldArg::Ty(21));
    fields.push(field(FieldId::Decryption, FieldArg::Ty(22)));
    let reg = register_encryption_plugin(1, fields).unwrap();
    let info = reg.plugins[0].info.unwrap();
    let size = info.crypt_ctx_size.unwrap();
    assert_eq!(size.enc, 21);
    assert_eq!(size.dec, 22);
    assert_eq!(info.encrypted_length.unwrap().enc, 21);
}

#[test]
fn boolean_sysvar_emits_two_slot_array_with_true_default() {
    let decl = SysVarDecl {
        ident: 5,
        kind: SysVarKind::Bool,
        name: "test_flag".to_string(),
        description: "a boolean knob".to_string(),
        options: vec![SysVarOpt::OptionalCliArg],
        default: SysVarDefault::Bool(true),
    };
    let mut fields = full_declaration();
    fields.push(field(FieldId::Sysvars, FieldArg::Vars(vec![decl])));
    let reg = register_encryption_plugin(1, fields).unwrap();
    let table = reg.plugins[0].system_vars.as_ref().unwrap();
    assert_eq!(table.len(), 2);
    let rec = table[0].as_ref().unwrap();
    assert_eq!(rec.name, "test_flag");
    match &rec.body {
        SysVarBody::Bool { def_val } => assert_eq!(*def_val, true),
        other => panic!("wrong suffix shape: {other:?}"),
    }
    assert!(table[1].is_none());
}

#[test]
fn sysvar_flags_combine_kind_and_options() {
    let decl = SysVarDecl {
        ident: 1,
        kind: SysVarKind::Bool,
        name: "ro_flag".to_string(),
        description: "read only".to_string(),
        options: vec![SysVarOpt::ReadOnly],
        default: SysVarDefault::Bool(false),
    };
    let rec = encode_sysvar(&decl).unwrap();
    assert_eq!(rec.flags, PLUGIN_VAR_BOOL | PLUGIN_VAR_READONLY);
    assert!(!rec.has_check);
    assert!(!rec.has_update);
    assert_eq!(rec.value_ref, 1);
}

#[test]
fn sysvar_default_must_fit_its_kind() {
    let decl = SysVarDecl {
        ident: 1,
        kind: SysVarKind::Bool,
        name: "broken".to_string(),
        description: "bad default".to_string(),
        options: vec![],
        default: SysVarDefault::Int(1),
    };
    assert!(matches!(encode_sysvar(&decl), Err(SysVarError::DefaultMismatch)));
}

#[test]
fn field_order_check_accepts_canonical_order_only() {
    assert!(verify_field_order(&vec![FieldId::Ptype, FieldId::Name, FieldId::Version]).is_ok());
    assert!(verify_field_order(&vec![]).is_ok());
    assert!(verify_field_order(&vec![FieldId::Name, FieldId::Ptype]).is_err());
    assert!(verify_field_order(&vec![FieldId::Name, FieldId::Name]).is_err());
}

#[test]
fn parse_assigns_declared_fields() {
    let info = PluginInfo::parse(3, full_declaration()).unwrap();
    assert_eq!(info.main_ty, 3);
    assert_eq!(info.ptype, Some(PluginType::MariaEncryption));
    assert_eq!(info.name.as_deref(), Some("clevis_key_management"));
    assert_eq!(info.version.as_deref(), Some("0.1"));
    assert_eq!(info.init, Some(7));
    assert!(info.decryption.is_none());
    assert!(info.variables.is_none());
}

#[test]
fn registration_installs_init_trampolines() {
    let reg = register_encryption_plugin(1, full_declaration()).unwrap();
    let d = &reg.plugins[0];
    assert_eq!(d.init, Some(InitTrampoline::WithInit { main: 1, init: 7 }));
    assert_eq!(d.deinit, Some(InitTrampoline::WithInit { main: 1, init: 7 }));

    // Without a declared init type, the default trampolines are
    // installed instead; the slots are never left null.
    let mut fields = full_declaration();
    fields.remove(7);
    let reg = register_encryption_plugin(4, fields).unwrap();
    let d = &reg.plugins[0];
    assert_eq!(d.init, Some(InitTrampoline::Default { main: 4 }));
    assert_eq!(d.deinit, Some(InitTrampoline::Default { main: 4 }));
}
