//! Decision logic of the Tang-backed key-management plugin.
//!
//! The plugin keeps one row per key version in a host table and derives
//! the key material through a Tang server. The host drives the flow:
//! the SQL statements and the Tang exchange run outside, hand their
//! results back as plain values, and the decisions here say what happens
//! next. Key metadata is the only artifact that crosses both worlds: it
//! is parsed and serialized here, through the Tang client library.

use vstd::prelude::*;

use clevis::Error as TangError;

use crate::encryption::KeyError;
use crate::service::ClientError;

verus! {

/// Byte length of every key this plugin serves: enough for a 256-bit
/// cipher key.
pub const KEY_BYTES: usize = 32;

/// Key metadata as the Tang client library holds it. Opaque here: the
/// logic only parses, stores and hands it back.
#[verifier::external_type_specification]
#[verifier::external_body]
pub struct ExKeyMeta(clevis::KeyMeta);

/// The Tang client library's error type. Opaque here: every failure is
/// mapped to one key error before it reaches the host.
#[verifier::external_type_specification]
#[verifier::external_body]
pub struct ExClevisError(TangError);

/// Relies on clevis::KeyMeta::from_json_bytes: parses stored key
/// metadata from its JSON form, a pure computation on the bytes.
#[verifier::external_body]
fn key_meta_from_json_bytes(val: &[u8]) -> (r: Result<clevis::KeyMeta, TangError>) {
    clevis::KeyMeta::from_json_bytes(val)
}

/// Relies on clevis::KeyMeta::to_json: serializes key metadata to the
/// JSON form the key table stores, a pure computation on the metadata.
#[verifier::external_body]
pub fn key_meta_to_json(meta: &clevis::KeyMeta) -> (r: String) {
    meta.to_json()
}

/// Parse stored key metadata. A blob the parser rejects is an
/// operation-level failure, reported as the generic key error as every
/// internal failure of this plugin is.
pub fn parse_key_meta(meta_str: &[u8]) -> (r: Result<clevis::KeyMeta, KeyError>)
    ensures
        r is Err ==> r == Err::<clevis::KeyMeta, KeyError>(KeyError::Other),
{
    match key_meta_from_json_bytes(meta_str) {
        Ok(meta) => Ok(meta),
        Err(_) => Err(KeyError::Other),
    }
}

/// What to do after looking up the newest stored version of a key.
#[derive(Clone, Copy, Debug, PartialEq, Eq, Structural)]
pub enum VersionLookupAction {
    /// A version exists: hand it to the host.
    UseExisting(u32),
    /// No row exists: provision a new key under this version and insert
    /// it before answering.
    ProvisionNew { key_version: u32 },
}

/// Decide the newest key version from the lookup's single row, if any:
/// an existing version is answered as it stands; a missing key is
/// provisioned as version one, since no key rotation happens yet.
pub fn decide_latest_version(existing: Option<i64>) -> (r: VersionLookupAction)
    requires
        existing matches Some(v) ==> 0 <= v <= u32::MAX,
    ensures
        existing matches Some(v) ==> r == VersionLookupAction::UseExisting(v as u32),
        existing is None ==> r == (VersionLookupAction::ProvisionNew { key_version: 1u32 }),
{
    match existing {
        Some(v) => VersionLookupAction::UseExisting(v as u32),
        None => VersionLookupAction::ProvisionNew { key_version: 1 },
    }
}

/// Check the key-lookup result before the key is recovered: exactly one
/// row must exist and each of its three columns must hold a value;
/// anything else is the generic key error, exactly then.
pub fn validate_key_row(
    row_count: usize,
    key_id_col: Option<i64>,
    key_version_col: Option<i64>,
    meta_col_present: bool,
) -> (r: Result<(), KeyError>)
    ensures
        r is Ok <==> row_count == 1 && key_id_col is Some && key_version_col is Some
            && meta_col_present,
        r is Err ==> r == Err::<(), KeyError>(KeyError::Other),
{
    if row_count != 1 {
        return Err(KeyError::Other);
    }
    if key_id_col.is_none() || key_version_col.is_none() || !meta_col_present {
        return Err(KeyError::Other);
    }
    Ok(())
}

/// Place a recovered key in the host's destination buffer. The buffer
/// must have the negotiated key length, as the host guarantees.
pub fn store_recovered_key(dst: &mut Vec<u8>, key: &[u8])
    requires
        old(dst)@.len() == KEY_BYTES,
        key@.len() == KEY_BYTES,
    ensures
        final(dst)@ == key@,
{
    let mut i: usize = 0;
    while i < KEY_BYTES
        invariant
            0 <= i <= KEY_BYTES,
            key@.len() == KEY_BYTES,
            dst@.len() == KEY_BYTES,
            forall|j: int| 0 <= j < i ==> dst@[j] == key@[j],
        decreases KEY_BYTES - i,
    {
        let b = key[i];
        dst[i] = b;
        i += 1;
    }
    proof {
        assert(final(dst)@ =~= key@);
    }
}

/// Name of the host table the plugin keeps key metadata in.
pub fn key_table_name() -> (r: &'static str)
    ensures
        r@ == "mysql.clevis_keys"@,
{
    "mysql.clevis_keys"
}

/// The statement the plugin's load-time setup runs: create the key
/// table when it does not exist, one row per key id and version, with
/// the metadata needed to recover the key.
pub fn key_table_ddl() -> (r: &'static str)
    ensures
        r@ == "CREATE TABLE IF NOT EXISTS mysql.clevis_keys (key_id INT UNSIGNED NOT NULL COMMENT 'MariaDB key_id', key_version INT UNSIGNED NOT NULL COMMENT 'MariaDB key_version', metadata TEXT NOT NULL COMMENT '[WARNING: SENSITIVE!] information to recover the key', PRIMARY KEY (key_id, key_version)) ENGINE=InnoDB"@,
{
    "CREATE TABLE IF NOT EXISTS mysql.clevis_keys (key_id INT UNSIGNED NOT NULL COMMENT 'MariaDB key_id', key_version INT UNSIGNED NOT NULL COMMENT 'MariaDB key_version', metadata TEXT NOT NULL COMMENT '[WARNING: SENSITIVE!] information to recover the key', PRIMARY KEY (key_id, key_version)) ENGINE=InnoDB"
}

/// Every failure of the SQL service inside this plugin is reported to
/// the host as the generic key error.
pub fn client_error_to_key_error(e: &ClientError) -> (r: KeyError)
    ensures
        r == KeyError::Other,
{
    match e {
        ClientError::ConnectError(_, _) => KeyError::Other,
        ClientError::QueryError(_, _) => KeyError::Other,
        ClientError::FetchError(_, _) => KeyError::Other,
    }
}

/// The statement that begins the transaction every keyed operation runs
/// in.
pub fn transaction_begin_statement() -> (r: &'static str)
    ensures
        r@ == "START TRANSACTION"@,
{
    "START TRANSACTION"
}

/// How a transaction around a keyed operation ends.
#[derive(Clone, Copy, Debug, PartialEq, Eq, Structural)]
pub enum TxnEnd {
    /// The body succeeded: make its writes durable.
    Commit,
    /// The body failed: undo everything since the begin statement.
    Rollback,
}

/// The closing step of the transaction wrapper: commit exactly when the
/// wrapped operation succeeded, roll back exactly when it failed. The
/// operation's own result is passed through either way.
pub fn transaction_epilogue(body_succeeded: bool) -> (r: TxnEnd)
    ensures
        r == TxnEnd::Commit <==> body_succeeded,
        r == TxnEnd::Rollback <==> !body_succeeded,
{
    if body_succeeded {
        TxnEnd::Commit
    } else {
        TxnEnd::Rollback
    }
}

impl TxnEnd {
    /// The statement that performs this transaction end.
    pub fn statement(self) -> (r: &'static str)
        ensures
            self is Commit ==> r@ == "COMMIT"@,
            self is Rollback ==> r@ == "ROLLBACK"@,
    {
        match self {
            TxnEnd::Commit => "COMMIT",
            TxnEnd::Rollback => "ROLLBACK",
        }
    }
}

/// The key-management identity of this plugin.
pub struct KeyMgtClevis {

}

impl KeyMgtClevis {
    /// Every key this plugin serves has the same fixed length.
    pub fn key_length(key_id: u32, key_version: u32) -> (r: Result<usize, KeyError>)
        ensures
            r == Ok::<usize, KeyError>(KEY_BYTES),
    {
        Ok(KEY_BYTES)
    }
}

} // verus!
