//! The handler capability surface a storage-engine author implements,
//! and the plain host records its operations read.
//!
//! A handler is one table interface instance. The host calls it only
//! through the vtable bridge; an author never sees raw pointers, only
//! these types and traits.

use vstd::prelude::*;

use crate::storage_error::StorageResult;
use crate::table::{Create, MemRoot, TableShare};

verus! {

/// Host I/O block size.
pub const IO_SIZE: usize = 4096;

/// Largest record length the host supports.
pub const MAX_RECORD_LENGTH: usize = 65535;

/// Most key parts usable as a reference.
pub const MAX_REFERENCE_PARTS: usize = 32;

/// Longest data portion of an index lookup key.
pub const MAX_DATA_LENGTH_FOR_KEY: usize = 3072;

/// Capability bits a storage engine reports to the host. The bit values
/// belong to the host's header namespace and are carried opaquely; this
/// layer never re-derives them.
#[derive(Clone, Copy, Debug, PartialEq, Eq, Structural)]
pub struct TableFlags {
    pub bits: u64,
}

impl TableFlags {
    /// Flags from raw host bits.
    pub fn new(bits: u64) -> (r: TableFlags)
        ensures
            r.bits == bits,
    {
        TableFlags { bits }
    }

    /// The union of two flag sets.
    pub fn bitor(self, rhs: TableFlags) -> (r: TableFlags)
        ensures
            r.bits == self.bits | rhs.bits,
    {
        TableFlags { bits: self.bits | rhs.bits }
    }

    /// Whether every bit of `other` is set here.
    pub fn contains(self, other: TableFlags) -> (r: bool)
        ensures
            r == (self.bits & other.bits == other.bits),
    {
        self.bits & other.bits == other.bits
    }
}

impl Default for TableFlags {
    /// No special capabilities.
    fn default() -> (r: TableFlags)
        ensures
            r.bits == 0,
    {
        TableFlags { bits: 0 }
    }
}

/// Per-index capability bits, carried opaquely like table flags.
#[derive(Clone, Copy, Debug, PartialEq, Eq, Structural)]
pub struct IndexFlags {
    pub bits: u64,
}

impl IndexFlags {
    /// Flags from raw host bits.
    pub fn new(bits: u64) -> (r: IndexFlags)
        ensures
            r.bits == bits,
    {
        IndexFlags { bits }
    }
}

impl Default for IndexFlags {
    /// No special capabilities.
    fn default() -> (r: IndexFlags)
        ensures
            r.bits == 0,
    {
        IndexFlags { bits: 0 }
    }
}

/// The host's per-table statistics block, as plain counters.
#[derive(Clone, Copy, Debug, PartialEq, Eq, Structural)]
pub struct Statistics {
    pub data_file_length: u64,
    pub max_data_file_length: u64,
    pub index_file_length: u64,
    pub max_index_file_length: u64,
    pub delete_length: u64,
    pub auto_increment_value: u64,
    pub records: u64,
    pub deleted: u64,
    pub mean_rec_length: u64,
    pub block_size: u64,
    pub checksum: u32,
}

impl Statistics {
    /// Length of the data file.
    pub fn data_file_length(&self) -> (r: usize)
        requires
            self.data_file_length <= usize::MAX,
        ensures
            r == self.data_file_length,
    {
        self.data_file_length as usize
    }

    /// Largest allowed data file length.
    pub fn max_data_file_length(&self) -> (r: usize)
        requires
            self.max_data_file_length <= usize::MAX,
        ensures
            r == self.max_data_file_length,
    {
        self.max_data_file_length as usize
    }

    /// Length of the index file.
    pub fn index_file_length(&self) -> (r: usize)
        requires
            self.index_file_length <= usize::MAX,
        ensures
            r == self.index_file_length,
    {
        self.index_file_length as usize
    }

    /// Largest allowed index file length.
    pub fn max_index_file_length(&self) -> (r: usize)
        requires
            self.max_index_file_length <= usize::MAX,
        ensures
            r == self.max_index_file_length,
    {
        self.max_index_file_length as usize
    }

    /// Free bytes left by deleted records.
    pub fn delete_length(&self) -> (r: usize)
        requires
            self.delete_length <= usize::MAX,
        ensures
            r == self.delete_length,
    {
        self.delete_length as usize
    }

    /// Next auto-increment value.
    pub fn auto_increment_value(&self) -> (r: usize)
        requires
            self.auto_increment_value <= usize::MAX,
        ensures
            r == self.auto_increment_value,
    {
        self.auto_increment_value as usize
    }

    /// Record count.
    pub fn records(&self) -> (r: usize)
        requires
            self.records <= usize::MAX,
        ensures
            r == self.records,
    {
        self.records as usize
    }

    /// Deleted-record count.
    pub fn deleted(&self) -> (r: usize)
        requires
            self.deleted <= usize::MAX,
        ensures
            r == self.deleted,
    {
        self.deleted as usize
    }

    /// Mean record length.
    pub fn mean_rec_length(&self) -> (r: usize)
        requires
            self.mean_rec_length <= usize::MAX,
        ensures
            r == self.mean_rec_length,
    {
        self.mean_rec_length as usize
    }

    /// I/O block size of the table files.
    pub fn block_size(&self) -> (r: usize)
        requires
            self.block_size <= usize::MAX,
        ensures
            r == self.block_size,
    {
        self.block_size as usize
    }

    /// Table checksum.
    pub fn checksum(&self) -> (r: u32)
        ensures
            r == self.checksum,
    {
        self.checksum
    }
}

/// Table creation parameters the host passes to `create`, as plain
/// values.
#[derive(Clone, Copy, Debug, PartialEq, Eq, Structural)]
pub struct CreateInfo {
    pub max_rows: u64,
    pub min_rows: u64,
    pub auto_increment_value: u64,
}

/// Per-call context of a handler operation: the statistics block the
/// host keeps for the open table.
#[derive(Clone, Copy, Debug, PartialEq, Eq, Structural)]
pub struct HandlerCtx {
    pub stats: Statistics,
}

impl HandlerCtx {
    /// The statistics block.
    pub fn stats(&self) -> (r: &Statistics)
        ensures
            r == &self.stats,
    {
        &self.stats
    }
}

/// Host file-open mode word.
#[derive(Clone, Copy, Debug, PartialEq, Eq, Structural)]
pub struct Mode {
    pub raw: i32,
}

/// Host open-operation options word.
#[derive(Clone, Copy, Debug, PartialEq, Eq, Structural)]
pub struct OpenOp {
    pub raw: u32,
}

/// A single instance of a table interface: the operation set a storage
/// engine author implements. Everything the author does not override
/// keeps the host's default behaviour; the bridge imposes no policy
/// beyond marshaling.
pub trait Handler: Sized {
    /// Whether the type also implements the index operation set; the
    /// vtable builder leaves the index slots null otherwise.
    fn supports_index() -> bool {
        false
    }

    /// Construct an instance for a new connection.
    fn new(table: &TableShare<Create>, mem_root: MemRoot) -> Self;

    /// Open a table by file name.
    fn open(name: &str, mode: Mode, open_options: OpenOp) -> StorageResult<()>;

    /// Create a new table.
    fn create(&self, name: &str, form: &TableShare<Create>, create_info: &CreateInfo) -> (r:
        StorageResult<()>) {
        Ok(())
    }

    /// What the engine can do; no special capabilities by default.
    fn table_flags(&self) -> TableFlags {
        TableFlags::new(0)
    }

    /// Insert a row.
    fn write_row(&mut self, buf: &[u8]) -> (r: StorageResult<()>) {
        Ok(())
    }

    /// Update a row.
    fn update_row(&mut self, old_row: &[u8], new_row: &[u8]) -> (r: StorageResult<()>) {
        Ok(())
    }

    /// Delete a row.
    fn delete_row(&mut self, buf: &[u8]) -> (r: StorageResult<()>) {
        Ok(())
    }

    /// Delete every row.
    fn delete_all_rows(&mut self) -> (r: StorageResult<()>) {
        Ok(())
    }

    /// Store a lock; nothing to do by default.
    fn store_lock(&self) {
    }

    /// Largest record this engine supports.
    fn max_supported_record_length(&self) -> usize {
        MAX_RECORD_LENGTH
    }
}

/// Extra operations of a handler that can check and repair its tables.
pub trait RepairingHandler: Handler {
    /// Checksum before any repair ran.
    fn pre_calculate_checksum(&self) -> u32 {
        0
    }

    /// Current checksum.
    fn calculate_checksum(&self) -> u32 {
        0
    }

    /// Whether the table is marked crashed.
    fn is_crashed(&self) -> bool {
        false
    }

    /// Whether the error can be repaired automatically.
    fn auto_repair(error: i32) -> bool {
        false
    }
}

/// Extra operations of a handler with index support.
pub trait IndexableHandler: Handler {
    /// Most keys the engine supports.
    fn max_supported_keys(&self) -> usize {
        0
    }

    /// Most parts one key may have.
    fn max_supported_key_parts(&self) -> usize {
        MAX_REFERENCE_PARTS
    }

    /// Longest supported key.
    fn max_supported_key_length(&self) -> usize {
        MAX_DATA_LENGTH_FOR_KEY
    }

    /// Display name of an index, if any.
    fn index_type(&self, index_number: usize) -> Option<&'static str> {
        None
    }

    /// Capability bits of one index part.
    fn index_flags(&self, index: usize, part: usize, all_parts: bool) -> IndexFlags {
        IndexFlags::new(0)
    }

    /// Position to a key.
    fn index_read_map(&mut self) {
    }

    /// Step to the next key.
    fn index_next(&mut self) {
    }

    /// Step to the previous key.
    fn index_prev(&mut self) {
    }

    /// Go to the first key.
    fn index_first(&mut self) {
    }

    /// Go to the last key.
    fn index_last(&mut self) {
    }
}

/// Marker for a handler that supports in-place `ALTER TABLE`.
pub trait InplaceAlterTable {

}

} // verus!
