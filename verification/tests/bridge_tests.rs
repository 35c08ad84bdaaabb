use mariadb::bridge::{
    wrap_constructor, wrap_delete_all_rows, wrap_destructor, wrap_open, wrap_table_flags,
    wrap_write_row, AbiFault, HandlerBridge,
};
use mariadb::encryption::{
    CryptoContext, InitNotes, KeyError, PadAction, WarnOnceLatch, CRYPTO_KEY_LEN, CRYPTO_NONCE_LEN,
    CRYPTO_TAG_LEN,
};
use mariadb::handler::{Handler, Mode, OpenOp, Statistics, TableFlags};
use mariadb::handlerton::{initialize_handlerton, Handlerton, HandlertonRecord};
use mariadb::keymgt::{
    client_error_to_key_error, decide_latest_version, key_table_ddl, key_table_name,
    parse_key_meta, store_recovered_key, transaction_begin_statement, transaction_epilogue,
    validate_key_row, KeyMgtClevis, TxnEnd, VersionLookupAction, KEY_BYTES,
};
use mariadb::service::{ClientError, FieldMeta};
use mariadb::storage_error::{StorageError, StorageResult};
use mariadb::table::{Create, MemRoot, TableShare};
use mariadb::vtable::{build_handler_vtable, HandlerCaps, VtableOp};
use mariadb::wrapper::{
    default_deinit_notype, default_init_notype, wrap_deinit_fn, wrap_init_fn, wrap_storage_init_fn,
    HandlertonMeta, Init, InitError, PluginMeta,
};

const TAG_A: u64 = 0xA1;
const TAG_B: u64 = 0xB2;

struct TestHandler {
    rows_written: usize,
    fail_with: Option<StorageError>,
}

impl Handler for TestHandler {
    fn new(_table: &TableShare<Create>, _mem_root: MemRoot) -> Self {
        TestHandler { rows_written: 0, fail_with: None }
    }

    fn open(_name: &str, _mode: Mode, _open_options: OpenOp) -> StorageResult<()> {
        Ok(())
    }

    fn table_flags(&self) -> TableFlags {
        TableFlags::new(0x30)
    }

    fn write_row(&mut self, _buf: &[u8]) -> StorageResult<()> {
        match self.fail_with {
            Some(e) => Err(e),
            None => {
                self.rows_written += 1;
                Ok(())
            }
        }
    }
}

struct FailingOpenHandler;

impl Handler for FailingOpenHandler {
    fn new(_table: &TableShare<Create>, _mem_root: MemRoot) -> Self {
        FailingOpenHandler
    }

    fn open(_name: &str, _mode: Mode, _open_options: OpenOp) -> StorageResult<()> {
        Err(StorageError::NoSuchTable)
    }
}

fn fresh_bridge() -> HandlerBridge<TestHandler> {
    HandlerBridge { instance: None, type_tag: 0 }
}

#[test]
fn vtable_base_slots_are_populated_for_the_type() {
    let caps = HandlerCaps { supports_index: false, supports_inplace_alter: false };
    let vt = build_handler_vtable(&caps, TAG_A);
    let ctor = vt.constructor.unwrap();
    assert_eq!(ctor.op, VtableOp::Constructor);
    assert_eq!(ctor.type_tag, TAG_A);
    let wr = vt.write_row.unwrap();
    assert_eq!(wr.op, VtableOp::WriteRow);
    assert_eq!(wr.type_tag, TAG_A);
    assert!(vt.destructor.is_some());
    assert!(vt.open.is_some());
    assert!(vt.store_lock.is_some());
}

#[test]
fn unimplemented_vtable_slots_are_null() {
    let caps = HandlerCaps { supports_index: false, supports_inplace_alter: false };
    let vt = build_handler_vtable(&caps, TAG_A);
    assert!(vt.index_type.is_none());
    assert!(vt.index_flags.is_none());
    assert!(vt.index_read_map.is_none());
    assert!(vt.index_next.is_none());
    assert!(vt.index_prev.is_none());
    assert!(vt.index_first.is_none());
    assert!(vt.index_last.is_none());
    assert!(vt.keyread_time.is_none());
    assert!(vt.max_supported_keys.is_none());
    assert!(vt.check_if_supported_inplace_alter.is_none());

    let caps = HandlerCaps { supports_index: true, supports_inplace_alter: true };
    let vt = build_handler_vtable(&caps, TAG_B);
    assert_eq!(vt.index_read_map.unwrap().op, VtableOp::IndexReadMap);
    assert_eq!(vt.index_read_map.unwrap().type_tag, TAG_B);
    assert!(vt.check_if_supported_inplace_alter.is_some());
}

#[test]
fn construct_then_destruct_leaves_slot_null() {
    let mut bridge = fresh_bridge();
    let handler = TestHandler { rows_written: 3, fail_with: None };
    wrap_constructor(&mut bridge, handler, TAG_A);
    assert!(bridge.instance.is_some());
    assert_eq!(bridge.type_tag, TAG_A);

    assert_eq!(wrap_destructor(&mut bridge, TAG_A), Ok(()));
    assert!(bridge.instance.is_none());

    // A second destructor call is inert, not a double free.
    assert_eq!(wrap_destructor(&mut bridge, TAG_A), Ok(()));
    assert!(bridge.instance.is_none());
}

#[test]
fn mismatched_tag_takes_the_fatal_path() {
    let mut bridge = fresh_bridge();
    wrap_constructor(&mut bridge, TestHandler { rows_written: 0, fail_with: None }, TAG_B);

    // A trampoline built for type A must never touch a handle tagged B.
    assert_eq!(wrap_write_row(&mut bridge, TAG_A, b"row"), Err(AbiFault::TypeTagMismatch));
    assert_eq!(wrap_destructor(&mut bridge, TAG_A), Err(AbiFault::TypeTagMismatch));
    assert_eq!(wrap_table_flags(&bridge, TAG_A), Err(AbiFault::TypeTagMismatch));
    // The instance is untouched by the fatal path.
    assert!(bridge.instance.is_some());
    assert_eq!(bridge.instance.as_ref().unwrap().rows_written, 0);
}

#[test]
fn operation_on_destroyed_handle_is_fatal() {
    let mut bridge = fresh_bridge();
    wrap_constructor(&mut bridge, TestHandler { rows_written: 0, fail_with: None }, TAG_A);
    wrap_destructor(&mut bridge, TAG_A).unwrap();
    assert_eq!(wrap_write_row(&mut bridge, TAG_A, b"row"), Err(AbiFault::MissingInstance));
    assert_eq!(wrap_delete_all_rows(&mut bridge, TAG_A), Err(AbiFault::MissingInstance));
}

#[test]
fn dispatch_maps_native_results_to_host_codes() {
    let mut bridge = fresh_bridge();
    wrap_constructor(&mut bridge, TestHandler { rows_written: 0, fail_with: None }, TAG_A);
    assert_eq!(wrap_write_row(&mut bridge, TAG_A, b"row"), Ok(0));
    assert_eq!(bridge.instance.as_ref().unwrap().rows_written, 1);

    bridge.instance.as_mut().unwrap().fail_with = Some(StorageError::KeyNotFound);
    assert_eq!(wrap_write_row(&mut bridge, TAG_A, b"row"), Ok(120));

    assert_eq!(wrap_table_flags(&bridge, TAG_A), Ok(0x30));

    assert_eq!(wrap_open::<TestHandler>("t1", Mode { raw: 0 }, OpenOp { raw: 0 }), 0);
    assert_eq!(wrap_open::<FailingOpenHandler>("t1", Mode { raw: 0 }, OpenOp { raw: 0 }), 155);
}

struct TestEngine;

impl PluginMeta for TestEngine {
    fn name() -> &'static str {
        "test_engine"
    }
}

impl Handlerton for TestEngine {
    type HandlerType = TestHandler;
    type SavePoint = ();
}

impl HandlertonMeta for TestEngine {
    fn get_vtable() -> mariadb::vtable::HandlerVtable {
        let caps = HandlerCaps { supports_index: false, supports_inplace_alter: false };
        build_handler_vtable(&caps, TAG_A)
    }
}

struct FailingInit;

impl Init for FailingInit {
    fn init() -> Result<(), InitError> {
        Err(InitError {})
    }
}

struct OkInit;

impl Init for OkInit {}

#[test]
fn storage_init_installs_the_factory() {
    let mut hton = HandlertonRecord { create: None, flags: 0, kill_query: None, slot: 4 };
    let r = wrap_storage_init_fn::<TestEngine>(&mut hton);
    assert_eq!(r, 0);
    let slot = hton.create.unwrap();
    assert_eq!(slot.vtable.constructor.unwrap().type_tag, TAG_A);
    assert_eq!(hton.slot, 4);

    initialize_handlerton(&mut hton, TAG_A);
    assert_eq!(hton.kill_query.unwrap().type_tag, TAG_A);
}

#[test]
fn init_trampolines_encode_success_and_failure() {
    assert_eq!(wrap_init_fn::<TestEngine, OkInit>(), 0);
    assert_eq!(wrap_deinit_fn::<TestEngine, OkInit>(), 0);
    assert_eq!(wrap_init_fn::<TestEngine, FailingInit>(), 1);
    assert_eq!(default_init_notype::<TestEngine>(), 0);
    assert_eq!(default_deinit_notype::<TestEngine>(), 0);
}

#[test]
fn short_key_and_nonce_are_zero_padded_with_one_note() {
    let key = [1u8, 2, 3, 4, 5, 6, 7, 8];
    let nonce = [9u8, 9, 9, 9];
    let mut key_latch = WarnOnceLatch::new();
    let mut nonce_latch = WarnOnceLatch::new();

    let (ctx, notes) =
        CryptoContext::init(1, 1, &key, &nonce, false, &mut key_latch, &mut nonce_latch);

    // Zero-padded to the target sizes, never truncated.
    assert_eq!(ctx.key.len(), CRYPTO_KEY_LEN);
    assert_eq!(&ctx.key[..8], &key);
    assert!(ctx.key[8..].iter().all(|b| *b == 0));
    assert_eq!(ctx.nonce.len(), CRYPTO_NONCE_LEN);
    assert_eq!(&ctx.nonce[..4], &nonce);
    assert!(ctx.nonce[4..].iter().all(|b| *b == 0));

    // The padding is noted exactly once per process.
    assert_eq!(notes.key_note, Some(PadAction::ZeroExtended));
    assert_eq!(notes.nonce_note, Some(PadAction::ZeroExtended));
    let (_ctx2, notes2) =
        CryptoContext::init(1, 1, &key, &nonce, false, &mut key_latch, &mut nonce_latch);
    assert_eq!(notes2, InitNotes { key_note: None, nonce_note: None });
}

#[test]
fn exact_sized_key_needs_no_note() {
    let key = [7u8; CRYPTO_KEY_LEN];
    let nonce = [3u8; CRYPTO_NONCE_LEN];
    let mut key_latch = WarnOnceLatch::new();
    let mut nonce_latch = WarnOnceLatch::new();
    let (ctx, notes) =
        CryptoContext::init(1, 1, &key, &nonce, true, &mut key_latch, &mut nonce_latch);
    assert_eq!(ctx.key, key.to_vec());
    assert_eq!(ctx.nonce, nonce.to_vec());
    assert_eq!(notes, InitNotes { key_note: None, nonce_note: None });
    assert!(!key_latch.warned);
}

#[test]
fn context_runs_one_update_then_finish() {
    let key = [7u8; CRYPTO_KEY_LEN];
    let nonce = [3u8; CRYPTO_NONCE_LEN];
    let mut kl = WarnOnceLatch::new();
    let mut nl = WarnOnceLatch::new();
    let (mut ctx, _notes) = CryptoContext::init(1, 1, &key, &nonce, true, &mut kl, &mut nl);

    let src = [5u8, 6, 7];
    let mut dst = vec![0xEEu8; 20];
    let n = ctx.update(&src, &mut dst);
    assert_eq!(n, 3);
    assert_eq!(&dst[..3], &src);
    assert_eq!(dst[3], 0xEE);
    assert_eq!(ctx.update_calls, 1);

    let mut tag_dst = vec![0xEEu8; CRYPTO_TAG_LEN];
    assert_eq!(ctx.finish(&mut tag_dst), Ok(CRYPTO_TAG_LEN));
    assert_eq!(tag_dst, ctx.tag);

    let mut tiny = vec![0u8; CRYPTO_TAG_LEN - 1];
    assert!(ctx.finish(&mut tiny).is_err());
}

#[test]
fn encrypted_length_adds_the_tag() {
    assert_eq!(CryptoContext::encrypted_length(1, 1, 100), 116);
}

#[test]
fn key_length_is_fixed() {
    assert_eq!(KeyMgtClevis::key_length(1, 1), Ok(KEY_BYTES));
}

#[test]
fn version_lookup_uses_existing_or_provisions_one() {
    assert_eq!(decide_latest_version(Some(7)), VersionLookupAction::UseExisting(7));
    assert_eq!(
        decide_latest_version(None),
        VersionLookupAction::ProvisionNew { key_version: 1 }
    );
}

#[test]
fn key_row_validation_requires_one_complete_row() {
    assert_eq!(validate_key_row(1, Some(1), Some(1), true), Ok(()));
    assert_eq!(validate_key_row(0, Some(1), Some(1), true), Err(KeyError::Other));
    assert_eq!(validate_key_row(2, Some(1), Some(1), true), Err(KeyError::Other));
    assert_eq!(validate_key_row(1, None, Some(1), true), Err(KeyError::Other));
    assert_eq!(validate_key_row(1, Some(1), None, true), Err(KeyError::Other));
    assert_eq!(validate_key_row(1, Some(1), Some(1), false), Err(KeyError::Other));
}

#[test]
fn recovered_key_fills_the_host_buffer() {
    let key = [0xABu8; KEY_BYTES];
    let mut dst = vec![0u8; KEY_BYTES];
    store_recovered_key(&mut dst, &key);
    assert_eq!(dst, key.to_vec());
}

#[test]
fn transactions_commit_on_success_only() {
    assert_eq!(transaction_epilogue(true), TxnEnd::Commit);
    assert_eq!(transaction_epilogue(false), TxnEnd::Rollback);
}

#[test]
fn malformed_key_metadata_is_an_operation_error() {
    match parse_key_meta(b"not json at all") {
        Err(KeyError::Other) => {}
        _ => panic!("expected the generic key error"),
    }
}

#[test]
fn statistics_getters_return_their_counters() {
    let stats = Statistics {
        data_file_length: 1,
        max_data_file_length: 2,
        index_file_length: 3,
        max_index_file_length: 4,
        delete_length: 5,
        auto_increment_value: 6,
        records: 7,
        deleted: 8,
        mean_rec_length: 9,
        block_size: 10,
        checksum: 11,
    };
    assert_eq!(stats.data_file_length(), 1);
    assert_eq!(stats.max_data_file_length(), 2);
    assert_eq!(stats.index_file_length(), 3);
    assert_eq!(stats.max_index_file_length(), 4);
    assert_eq!(stats.delete_length(), 5);
    assert_eq!(stats.auto_increment_value(), 6);
    assert_eq!(stats.records(), 7);
    assert_eq!(stats.deleted(), 8);
    assert_eq!(stats.mean_rec_length(), 9);
    assert_eq!(stats.block_size(), 10);
    assert_eq!(stats.checksum(), 11);
}

#[test]
fn transaction_statements_are_fixed() {
    assert_eq!(transaction_begin_statement(), "START TRANSACTION");
    assert_eq!(TxnEnd::Commit.statement(), "COMMIT");
    assert_eq!(TxnEnd::Rollback.statement(), "ROLLBACK");
}

#[test]
fn key_table_statements_name_the_key_table() {
    assert_eq!(key_table_name(), "mysql.clevis_keys");
    assert!(key_table_ddl().starts_with("CREATE TABLE IF NOT EXISTS mysql.clevis_keys"));
    assert!(key_table_ddl().contains("PRIMARY KEY (key_id, key_version)"));
}

#[test]
fn sql_failures_map_to_the_generic_key_error() {
    let e = ClientError::QueryError(1045, "denied".to_string());
    assert_eq!(client_error_to_key_error(&e), KeyError::Other);
    assert_eq!(e.errno(), 1045);
}

#[test]
fn field_meta_getters_return_their_values() {
    let meta = FieldMeta { length: 11, max_length: 4, name: "key_version".to_string() };
    assert_eq!(meta.length(), 11);
    assert_eq!(meta.max_length(), 4);
    assert_eq!(meta.name(), "key_version");
}

#[test]
fn decrypt_context_splits_payload_from_tag() {
    let key = [7u8; CRYPTO_KEY_LEN];
    let nonce = [3u8; CRYPTO_NONCE_LEN];
    let mut kl = WarnOnceLatch::new();
    let mut nl = WarnOnceLatch::new();
    let (mut ctx, _notes) = CryptoContext::init(2, 1, &key, &nonce, false, &mut kl, &mut nl);

    // Three payload bytes followed by a sixteen-byte tag.
    let mut src = vec![5u8, 6, 7];
    src.extend_from_slice(&[0xAA; CRYPTO_TAG_LEN]);
    let mut dst = vec![0u8; 3];
    let n = ctx.decrypt_update(&src, &mut dst);
    assert_eq!(n, 3);
    assert_eq!(dst, vec![5, 6, 7]);
    assert_eq!(ctx.update_calls, 1);

    let mut rest = Vec::new();
    assert_eq!(ctx.decrypt_finish(&mut rest), Ok(0));
    assert!(rest.is_empty());
}
