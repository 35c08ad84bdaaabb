//! Storage handler error codes, mirroring the host's fixed error table.
//!
//! Operation-level storage errors form a small closed set; each maps to
//! one integer of the host's error-code space, and only those integers
//! ever cross the ABI. Two codes of the host's range carry no name and
//! are never produced. These errors are recoverable by the host; they
//! are never used for ABI-fatal conditions.

use vstd::prelude::*;

verus! {

/// First code of the host's storage error range.
pub const HA_ERR_FIRST: u32 = 120;

/// Last code of the host's storage error range.
pub const HA_ERR_LAST: u32 = 199;

/// Size of the host's storage error range, the two unnamed codes
/// included.
pub const HA_ERR_ERRORS: u32 = 80;

/// Result of a storage operation.
pub type StorageResult<T> = Result<T, StorageError>;

/// Storage handler error kinds, one per named code of the host's table.
#[derive(Clone, Copy, Debug, PartialEq, Eq, Structural)]
pub enum StorageError {
    /// Didn't find key on read or update
    KeyNotFound,
    /// Duplicate key on write
    FoundDuppKey,
    /// Internal error
    InternalError,
    /// Update which is recoverable
    RecordChanged,
    /// Wrong index given to function
    WrongIndex,
    /// Index file is crashed
    Crashed,
    /// Record file is crashed or table is corrupt
    WrongInRecord,
    /// Out of memory
    OutOfMemory,
    /// Initialization failed and should be retried
    RetryInit,
    /// File has no table signature
    NotAtAble,
    /// Command not supported
    WrongCommand,
    /// Old database file
    OldFile,
    /// No record read in update
    NoActiveRecord,
    /// A record is not there
    RecordDeleted,
    /// No more room in record file
    RecordFileFull,
    /// No more room in index file
    IndexFileFull,
    /// End in next/prev/first/last
    EndOfFile,
    /// Unsupported extension used
    Unsupported,
    /// Too big row
    ToBigRow,
    /// Wrong create option
    GCreateOption,
    /// Duplicate unique on write
    FoundDuppUnique,
    /// Can't open charset
    UnknownCharset,
    /// Conflicting tables in MERGE
    WrongMrgTableDef,
    /// Last (automatic) repair failed
    CrashedOnRepair,
    /// Table must be repaired
    CrashedOnUsage,
    /// Lock wait timeout
    LockWaitTimeout,
    /// Lock table is full
    LockTableFull,
    /// Updates not allowed
    ReadOnlyTransaction,
    /// Deadlock found when trying to get lock
    LockDeadlock,
    /// Cannot add a foreign key constraint
    CannotAddForeign,
    /// Cannot add a child row
    NoReferencedRow,
    /// Cannot delete a parent row
    RowIsReferenced,
    /// No savepoint with that name
    NoSavepoint,
    /// Non unique key block size
    NonUniqueBlockSize,
    /// The table does not exist in engine
    NoSuchTable,
    /// The table existed in storage engine
    TableExist,
    /// Could not connect to storage engine
    NoConnection,
    /// NULLs are not supported in spatial index
    NullInSpatial,
    /// The table changed in storage engine
    TableDefChanged,
    /// There's no partition in table for the given value
    NoPartitionFound,
    /// Row-based binlogging of row failed
    RbrLoggingFailed,
    /// Index needed in foreign key constraint
    DropIndexFk,
    /// Upholding foreign key constraints would lead to a duplicate key error in some other table
    ForeignDuplicateKey,
    /// The table needs an upgrade
    TableNeedsUpgrade,
    /// The table is not writable
    TableReadonly,
    /// Failed to get next autoinc value
    AutoincReadFailed,
    /// Failed to set row autoinc value
    AutoincErange,
    /// Generic error
    Generic,
    /// Row not actually updated: new values were the same as the old values
    RecordIsTheSame,
    /// It is not possible to log this statement
    LoggingImpossible,
    /// The event was corrupt, leading to illegal data being read
    CorruptEvent,
    /// New file format
    NewFile,
    /// The event could not be processed; no other handler error happened
    RowsEventApply,
    /// Error during initialization
    Initialization,
    /// File too short
    FileTooShort,
    /// Wrong CRC on page
    WrongCrc,
    /// Too many active concurrent transactions
    TooManyConcurrentTrxs,
    /// The requested record is not in a locked partition
    NotInLockPartitions,
    /// Index column length exceeds limit
    IndexColTooLong,
    /// Index corrupted
    IndexCorrupt,
    /// Undo log record too big
    UndoRecTooBig,
    /// Invalid fulltext document id
    InvalidDocid,
    /// The tablespace existed in storage engine
    TablespaceExists,
    /// Table has too many columns
    TooManyFields,
    /// Row in wrong partition
    RowInWrongPartition,
    /// Row is not visible
    RowNotVisible,
    /// Operation was aborted by the user
    AbortedByUser,
    /// Disk full
    DiskFull,
    /// Incompatible table definition
    IncompatibleDefinition,
    /// Too many words in a fulltext phrase
    FtsTooManyWordsInPhrase,
    /// Table encrypted but decryption failed
    DecryptionFailed,
    /// Foreign key cascade depth exceeded
    FkDepthExceeded,
    /// Missing tablespace
    TablespaceMissing,
    /// Sequence values are invalid
    SequenceInvalidData,
    /// Sequence has run out of values
    SequenceRunOut,
    /// Error during commit
    CommitError,
    /// Error in partition list
    PartitionList,
    /// No or unsupported encryption
    NoEncryption,
}

/// The host's integer code for a storage error.
pub open spec fn spec_storage_error_code(e: StorageError) -> u32 {
    match e {
        StorageError::KeyNotFound => 120,
        StorageError::FoundDuppKey => 121,
        StorageError::InternalError => 122,
        StorageError::RecordChanged => 123,
        StorageError::WrongIndex => 124,
        StorageError::Crashed => 126,
        StorageError::WrongInRecord => 127,
        StorageError::OutOfMemory => 128,
        StorageError::RetryInit => 129,
        StorageError::NotAtAble => 130,
        StorageError::WrongCommand => 131,
        StorageError::OldFile => 132,
        StorageError::NoActiveRecord => 133,
        StorageError::RecordDeleted => 134,
        StorageError::RecordFileFull => 135,
        StorageError::IndexFileFull => 136,
        StorageError::EndOfFile => 137,
        StorageError::Unsupported => 138,
        StorageError::ToBigRow => 139,
        StorageError::GCreateOption => 140,
        StorageError::FoundDuppUnique => 141,
        StorageError::UnknownCharset => 142,
        StorageError::WrongMrgTableDef => 143,
        StorageError::CrashedOnRepair => 144,
        StorageError::CrashedOnUsage => 145,
        StorageError::LockWaitTimeout => 146,
        StorageError::LockTableFull => 147,
        StorageError::ReadOnlyTransaction => 148,
        StorageError::LockDeadlock => 149,
        StorageError::CannotAddForeign => 150,
        StorageError::NoReferencedRow => 151,
        StorageError::RowIsReferenced => 152,
        StorageError::NoSavepoint => 153,
        StorageError::NonUniqueBlockSize => 154,
        StorageError::NoSuchTable => 155,
        StorageError::TableExist => 156,
        StorageError::NoConnection => 157,
        StorageError::NullInSpatial => 158,
        StorageError::TableDefChanged => 159,
        StorageError::NoPartitionFound => 160,
        StorageError::RbrLoggingFailed => 161,
        StorageError::DropIndexFk => 162,
        StorageError::ForeignDuplicateKey => 163,
        StorageError::TableNeedsUpgrade => 164,
        StorageError::TableReadonly => 165,
        StorageError::AutoincReadFailed => 166,
        StorageError::AutoincErange => 167,
        StorageError::Generic => 168,
        StorageError::RecordIsTheSame => 169,
        StorageError::LoggingImpossible => 170,
        StorageError::CorruptEvent => 171,
        StorageError::NewFile => 172,
        StorageError::RowsEventApply => 173,
        StorageError::Initialization => 174,
        StorageError::FileTooShort => 175,
        StorageError::WrongCrc => 176,
        StorageError::TooManyConcurrentTrxs => 177,
        StorageError::NotInLockPartitions => 178,
        StorageError::IndexColTooLong => 179,
        StorageError::IndexCorrupt => 180,
        StorageError::UndoRecTooBig => 181,
        StorageError::InvalidDocid => 182,
        StorageError::TablespaceExists => 184,
        StorageError::TooManyFields => 185,
        StorageError::RowInWrongPartition => 186,
        StorageError::RowNotVisible => 187,
        StorageError::AbortedByUser => 188,
        StorageError::DiskFull => 189,
        StorageError::IncompatibleDefinition => 190,
        StorageError::FtsTooManyWordsInPhrase => 191,
        StorageError::DecryptionFailed => 192,
        StorageError::FkDepthExceeded => 193,
        StorageError::TablespaceMissing => 194,
        StorageError::SequenceInvalidData => 195,
        StorageError::SequenceRunOut => 196,
        StorageError::CommitError => 197,
        StorageError::PartitionList => 198,
        StorageError::NoEncryption => 199,
    }
}

/// Every named error kind, in code order.
pub open spec fn spec_all_errors() -> Seq<StorageError> {
    seq![
        StorageError::KeyNotFound,
        StorageError::FoundDuppKey,
        StorageError::InternalError,
        StorageError::RecordChanged,
        StorageError::WrongIndex,
        StorageError::Crashed,
        StorageError::WrongInRecord,
        StorageError::OutOfMemory,
        StorageError::RetryInit,
        StorageError::NotAtAble,
        StorageError::WrongCommand,
        StorageError::OldFile,
        StorageError::NoActiveRecord,
        StorageError::RecordDeleted,
        StorageError::RecordFileFull,
        StorageError::IndexFileFull,
        StorageError::EndOfFile,
        StorageError::Unsupported,
        StorageError::ToBigRow,
        StorageError::GCreateOption,
        StorageError::FoundDuppUnique,
        StorageError::UnknownCharset,
        StorageError::WrongMrgTableDef,
        StorageError::CrashedOnRepair,
        StorageError::CrashedOnUsage,
        StorageError::LockWaitTimeout,
        StorageError::LockTableFull,
        StorageError::ReadOnlyTransaction,
        StorageError::LockDeadlock,
        StorageError::CannotAddForeign,
        StorageError::NoReferencedRow,
        StorageError::RowIsReferenced,
        StorageError::NoSavepoint,
        StorageError::NonUniqueBlockSize,
        StorageError::NoSuchTable,
        StorageError::TableExist,
        StorageError::NoConnection,
        StorageError::NullInSpatial,
        StorageError::TableDefChanged,
        StorageError::NoPartitionFound,
        StorageError::RbrLoggingFailed,
        StorageError::DropIndexFk,
        StorageError::ForeignDuplicateKey,
        StorageError::TableNeedsUpgrade,
        StorageError::TableReadonly,
        StorageError::AutoincReadFailed,
        StorageError::AutoincErange,
        StorageError::Generic,
        StorageError::RecordIsTheSame,
        StorageError::LoggingImpossible,
        StorageError::CorruptEvent,
        StorageError::NewFile,
        StorageError::RowsEventApply,
        StorageError::Initialization,
        StorageError::FileTooShort,
        StorageError::WrongCrc,
        StorageError::TooManyConcurrentTrxs,
        StorageError::NotInLockPartitions,
        StorageError::IndexColTooLong,
        StorageError::IndexCorrupt,
        StorageError::UndoRecTooBig,
        StorageError::InvalidDocid,
        StorageError::TablespaceExists,
        StorageError::TooManyFields,
        StorageError::RowInWrongPartition,
        StorageError::RowNotVisible,
        StorageError::AbortedByUser,
        StorageError::DiskFull,
        StorageError::IncompatibleDefinition,
        StorageError::FtsTooManyWordsInPhrase,
        StorageError::DecryptionFailed,
        StorageError::FkDepthExceeded,
        StorageError::TablespaceMissing,
        StorageError::SequenceInvalidData,
        StorageError::SequenceRunOut,
        StorageError::CommitError,
        StorageError::PartitionList,
        StorageError::NoEncryption,
    ]
}

impl StorageError {
    /// The host's integer code for this error: what a trampoline hands
    /// back across the ABI in place of the native value.
    pub fn code(&self) -> (r: u32)
        ensures
            r == spec_storage_error_code(*self),
            HA_ERR_FIRST <= r <= HA_ERR_LAST,
    {
        match self {
            StorageError::KeyNotFound => 120,
            StorageError::FoundDuppKey => 121,
            StorageError::InternalError => 122,
            StorageError::RecordChanged => 123,
            StorageError::WrongIndex => 124,
            StorageError::Crashed => 126,
            StorageError::WrongInRecord => 127,
            StorageError::OutOfMemory => 128,
            StorageError::RetryInit => 129,
            StorageError::NotAtAble => 130,
            StorageError::WrongCommand => 131,
            StorageError::OldFile => 132,
            StorageError::NoActiveRecord => 133,
            StorageError::RecordDeleted => 134,
            StorageError::RecordFileFull => 135,
            StorageError::IndexFileFull => 136,
            StorageError::EndOfFile => 137,
            StorageError::Unsupported => 138,
            StorageError::ToBigRow => 139,
            StorageError::GCreateOption => 140,
            StorageError::FoundDuppUnique => 141,
            StorageError::UnknownCharset => 142,
            StorageError::WrongMrgTableDef => 143,
            StorageError::CrashedOnRepair => 144,
            StorageError::CrashedOnUsage => 145,
            StorageError::LockWaitTimeout => 146,
            StorageError::LockTableFull => 147,
            StorageError::ReadOnlyTransaction => 148,
            StorageError::LockDeadlock => 149,
            StorageError::CannotAddForeign => 150,
            StorageError::NoReferencedRow => 151,
            StorageError::RowIsReferenced => 152,
            StorageError::NoSavepoint => 153,
            StorageError::NonUniqueBlockSize => 154,
            StorageError::NoSuchTable => 155,
            StorageError::TableExist => 156,
            StorageError::NoConnection => 157,
            StorageError::NullInSpatial => 158,
            StorageError::TableDefChanged => 159,
            StorageError::NoPartitionFound => 160,
            StorageError::RbrLoggingFailed => 161,
            StorageError::DropIndexFk => 162,
            StorageError::ForeignDuplicateKey => 163,
            StorageError::TableNeedsUpgrade => 164,
            StorageError::TableReadonly => 165,
            StorageError::AutoincReadFailed => 166,
            StorageError::AutoincErange => 167,
            StorageError::Generic => 168,
            StorageError::RecordIsTheSame => 169,
            StorageError::LoggingImpossible => 170,
            StorageError::CorruptEvent => 171,
            StorageError::NewFile => 172,
            StorageError::RowsEventApply => 173,
            StorageError::Initialization => 174,
            StorageError::FileTooShort => 175,
            StorageError::WrongCrc => 176,
            StorageError::TooManyConcurrentTrxs => 177,
            StorageError::NotInLockPartitions => 178,
            StorageError::IndexColTooLong => 179,
            StorageError::IndexCorrupt => 180,
            StorageError::UndoRecTooBig => 181,
            StorageError::InvalidDocid => 182,
            StorageError::TablespaceExists => 184,
            StorageError::TooManyFields => 185,
            StorageError::RowInWrongPartition => 186,
            StorageError::RowNotVisible => 187,
            StorageError::AbortedByUser => 188,
            StorageError::DiskFull => 189,
            StorageError::IncompatibleDefinition => 190,
            StorageError::FtsTooManyWordsInPhrase => 191,
            StorageError::DecryptionFailed => 192,
            StorageError::FkDepthExceeded => 193,
            StorageError::TablespaceMissing => 194,
            StorageError::SequenceInvalidData => 195,
            StorageError::SequenceRunOut => 196,
            StorageError::CommitError => 197,
            StorageError::PartitionList => 198,
            StorageError::NoEncryption => 199,
        }
    }

    /// Every named error kind, in code order. The host's range holds
    /// two more codes that carry no name here.
    #[verifier::rlimit(50)]
    pub fn all() -> (r: Vec<StorageError>)
        ensures
            r@ =~= spec_all_errors(),
            r@.len() + 2 == HA_ERR_ERRORS,
    {
        let mut v: Vec<StorageError> = Vec::new();
        v.push(StorageError::KeyNotFound);
        v.push(StorageError::FoundDuppKey);
        v.push(StorageError::InternalError);
        v.push(StorageError::RecordChanged);
        v.push(StorageError::WrongIndex);
        v.push(StorageError::Crashed);
        v.push(StorageError::WrongInRecord);
        v.push(StorageError::OutOfMemory);
        v.push(StorageError::RetryInit);
        v.push(StorageError::NotAtAble);
        v.push(StorageError::WrongCommand);
        v.push(StorageError::OldFile);
        v.push(StorageError::NoActiveRecord);
        v.push(StorageError::RecordDeleted);
        v.push(StorageError::RecordFileFull);
        v.push(StorageError::IndexFileFull);
        v.push(StorageError::EndOfFile);
        v.push(StorageError::Unsupported);
        v.push(StorageError::ToBigRow);
        v.push(StorageError::GCreateOption);
        v.push(StorageError::FoundDuppUnique);
        v.push(StorageError::UnknownCharset);
        v.push(StorageError::WrongMrgTableDef);
        v.push(StorageError::CrashedOnRepair);
        v.push(StorageError::CrashedOnUsage);
        v.push(StorageError::LockWaitTimeout);
        v.push(StorageError::LockTableFull);
        v.push(StorageError::ReadOnlyTransaction);
        v.push(StorageError::LockDeadlock);
        v.push(StorageError::CannotAddForeign);
        v.push(StorageError::NoReferencedRow);
        v.push(StorageError::RowIsReferenced);
        v.push(StorageError::NoSavepoint);
        v.push(StorageError::NonUniqueBlockSize);
        v.push(StorageError::NoSuchTable);
        v.push(StorageError::TableExist);
        v.push(StorageError::NoConnection);
        v.push(StorageError::NullInSpatial);
        v.push(StorageError::TableDefChanged);
        v.push(StorageError::NoPartitionFound);
        v.push(StorageError::RbrLoggingFailed);
        v.push(StorageError::DropIndexFk);
        v.push(StorageError::ForeignDuplicateKey);
        v.push(StorageError::TableNeedsUpgrade);
        v.push(StorageError::TableReadonly);
        v.push(StorageError::AutoincReadFailed);
        v.push(StorageError::AutoincErange);
        v.push(StorageError::Generic);
        v.push(StorageError::RecordIsTheSame);
        v.push(StorageError::LoggingImpossible);
        v.push(StorageError::CorruptEvent);
        v.push(StorageError::NewFile);
        v.push(StorageError::RowsEventApply);
        v.push(StorageError::Initialization);
        v.push(StorageError::FileTooShort);
        v.push(StorageError::WrongCrc);
        v.push(StorageError::TooManyConcurrentTrxs);
        v.push(StorageError::NotInLockPartitions);
        v.push(StorageError::IndexColTooLong);
        v.push(StorageError::IndexCorrupt);
        v.push(StorageError::UndoRecTooBig);
        v.push(StorageError::InvalidDocid);
        v.push(StorageError::TablespaceExists);
        v.push(StorageError::TooManyFields);
        v.push(StorageError::RowInWrongPartition);
        v.push(StorageError::RowNotVisible);
        v.push(StorageError::AbortedByUser);
        v.push(StorageError::DiskFull);
        v.push(StorageError::IncompatibleDefinition);
        v.push(StorageError::FtsTooManyWordsInPhrase);
        v.push(StorageError::DecryptionFailed);
        v.push(StorageError::FkDepthExceeded);
        v.push(StorageError::TablespaceMissing);
        v.push(StorageError::SequenceInvalidData);
        v.push(StorageError::SequenceRunOut);
        v.push(StorageError::CommitError);
        v.push(StorageError::PartitionList);
        v.push(StorageError::NoEncryption);
        v
    }
}

} // verus!
