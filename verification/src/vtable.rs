//! The handler vtable: the table of generated C-callable entry points
//! the host drives a storage engine through.
//!
//! One table is built per concrete handler type. Every populated slot
//! names its operation and carries the tag of the type it was generated
//! for; an operation the concrete type does not implement is a null
//! slot, which the host must treat as "capability unsupported" and never
//! call through.

use vstd::prelude::*;

use crate::descriptor::TypeTag;

verus! {

/// The operation a vtable slot stands for. Slot order and per-slot
/// signature are fixed by the host's expected layout.
#[derive(Clone, Copy, Debug, PartialEq, Eq, Structural)]
pub enum VtableOp {
    Constructor,
    Destructor,
    IndexType,
    TableFlags,
    IndexFlags,
    MaxSupportedRecordLength,
    MaxSupportedKeys,
    MaxSupportedKeyParts,
    MaxSupportedKeyLength,
    ScanTime,
    KeyreadTime,
    RndPosTime,
    Open,
    Close,
    WriteRow,
    UpdateRow,
    DeleteRow,
    IndexReadMap,
    IndexNext,
    IndexPrev,
    IndexFirst,
    IndexLast,
    RndInit,
    RndEnd,
    RndNext,
    RndPos,
    Position,
    Info,
    Extra,
    ExternalLock,
    DeleteAllRows,
    RecordsInRange,
    DeleteTable,
    Create,
    CheckIfSupportedInplaceAlter,
    StoreLock,
}

/// One populated vtable slot: the generated trampoline for an operation,
/// bound to the concrete type it recovers from the opaque handle.
#[derive(Clone, Copy, Debug, PartialEq, Eq, Structural)]
pub struct TrampolineRef {
    /// The operation this trampoline serves; its slot position fixes the
    /// C signature the host calls it with.
    pub op: VtableOp,
    /// Tag of the concrete handler type the trampoline was built for.
    pub type_tag: TypeTag,
}

/// What a concrete handler type implements beyond the base operation
/// set.
#[derive(Clone, Copy, Debug, PartialEq, Eq, Structural)]
pub struct HandlerCaps {
    /// The index operation set is implemented.
    pub supports_index: bool,
    /// In-place `ALTER TABLE` checking is implemented.
    pub supports_inplace_alter: bool,
}

/// The table of generated entry points for one concrete handler type.
/// `None` is a null function pointer.
#[derive(Clone, Copy, Debug, PartialEq, Eq, Structural)]
pub struct HandlerVtable {
    pub constructor: Option<TrampolineRef>,
    pub destructor: Option<TrampolineRef>,
    pub index_type: Option<TrampolineRef>,
    pub table_flags: Option<TrampolineRef>,
    pub index_flags: Option<TrampolineRef>,
    pub max_supported_record_length: Option<TrampolineRef>,
    pub max_supported_keys: Option<TrampolineRef>,
    pub max_supported_key_parts: Option<TrampolineRef>,
    pub max_supported_key_length: Option<TrampolineRef>,
    pub scan_time: Option<TrampolineRef>,
    pub keyread_time: Option<TrampolineRef>,
    pub rnd_pos_time: Option<TrampolineRef>,
    pub open: Option<TrampolineRef>,
    pub close: Option<TrampolineRef>,
    pub write_row: Option<TrampolineRef>,
    pub update_row: Option<TrampolineRef>,
    pub delete_row: Option<TrampolineRef>,
    pub index_read_map: Option<TrampolineRef>,
    pub index_next: Option<TrampolineRef>,
    pub index_prev: Option<TrampolineRef>,
    pub index_first: Option<TrampolineRef>,
    pub index_last: Option<TrampolineRef>,
    pub rnd_init: Option<TrampolineRef>,
    pub rnd_end: Option<TrampolineRef>,
    pub rnd_next: Option<TrampolineRef>,
    pub rnd_pos: Option<TrampolineRef>,
    pub position: Option<TrampolineRef>,
    pub info: Option<TrampolineRef>,
    pub extra: Option<TrampolineRef>,
    pub external_lock: Option<TrampolineRef>,
    pub delete_all_rows: Option<TrampolineRef>,
    pub records_in_range: Option<TrampolineRef>,
    pub delete_table: Option<TrampolineRef>,
    pub create: Option<TrampolineRef>,
    pub check_if_supported_inplace_alter: Option<TrampolineRef>,
    pub store_lock: Option<TrampolineRef>,
}

/// A populated slot holds the trampoline of exactly its own operation,
/// built for the given type. This is the per-slot signature discipline:
/// a slot never holds an entry point generated for another operation or
/// another type.
pub open spec fn slot_ok(slot: Option<TrampolineRef>, op: VtableOp, tag: TypeTag) -> bool {
    slot matches Some(t) ==> t == (TrampolineRef { op, type_tag: tag })
}

/// Every populated slot of the table is the right trampoline of the
/// right type.
pub open spec fn vtable_well_formed(vt: HandlerVtable, tag: TypeTag) -> bool {
    &&& slot_ok(vt.constructor, VtableOp::Constructor, tag)
    &&& slot_ok(vt.destructor, VtableOp::Destructor, tag)
    &&& slot_ok(vt.index_type, VtableOp::IndexType, tag)
    &&& slot_ok(vt.table_flags, VtableOp::TableFlags, tag)
    &&& slot_ok(vt.index_flags, VtableOp::IndexFlags, tag)
    &&& slot_ok(vt.max_supported_record_length, VtableOp::MaxSupportedRecordLength, tag)
    &&& slot_ok(vt.max_supported_keys, VtableOp::MaxSupportedKeys, tag)
    &&& slot_ok(vt.max_supported_key_parts, VtableOp::MaxSupportedKeyParts, tag)
    &&& slot_ok(vt.max_supported_key_length, VtableOp::MaxSupportedKeyLength, tag)
    &&& slot_ok(vt.scan_time, VtableOp::ScanTime, tag)
    &&& slot_ok(vt.keyread_time, VtableOp::KeyreadTime, tag)
    &&& slot_ok(vt.rnd_pos_time, VtableOp::RndPosTime, tag)
    &&& slot_ok(vt.open, VtableOp::Open, tag)
    &&& slot_ok(vt.close, VtableOp::Close, tag)
    &&& slot_ok(vt.write_row, VtableOp::WriteRow, tag)
    &&& slot_ok(vt.update_row, VtableOp::UpdateRow, tag)
    &&& slot_ok(vt.delete_row, VtableOp::DeleteRow, tag)
    &&& slot_ok(vt.index_read_map, VtableOp::IndexReadMap, tag)
    &&& slot_ok(vt.index_next, VtableOp::IndexNext, tag)
    &&& slot_ok(vt.index_prev, VtableOp::IndexPrev, tag)
    &&& slot_ok(vt.index_first, VtableOp::IndexFirst, tag)
    &&& slot_ok(vt.index_last, VtableOp::IndexLast, tag)
    &&& slot_ok(vt.rnd_init, VtableOp::RndInit, tag)
    &&& slot_ok(vt.rnd_end, VtableOp::RndEnd, tag)
    &&& slot_ok(vt.rnd_next, VtableOp::RndNext, tag)
    &&& slot_ok(vt.rnd_pos, VtableOp::RndPos, tag)
    &&& slot_ok(vt.position, VtableOp::Position, tag)
    &&& slot_ok(vt.info, VtableOp::Info, tag)
    &&& slot_ok(vt.extra, VtableOp::Extra, tag)
    &&& slot_ok(vt.external_lock, VtableOp::ExternalLock, tag)
    &&& slot_ok(vt.delete_all_rows, VtableOp::DeleteAllRows, tag)
    &&& slot_ok(vt.records_in_range, VtableOp::RecordsInRange, tag)
    &&& slot_ok(vt.delete_table, VtableOp::DeleteTable, tag)
    &&& slot_ok(vt.create, VtableOp::Create, tag)
    &&& slot_ok(vt.check_if_supported_inplace_alter, VtableOp::CheckIfSupportedInplaceAlter, tag)
    &&& slot_ok(vt.store_lock, VtableOp::StoreLock, tag)
}

/// The base slots every handler populates.
pub open spec fn base_slots_populated(vt: HandlerVtable) -> bool {
    &&& vt.constructor is Some
    &&& vt.destructor is Some
    &&& vt.table_flags is Some
    &&& vt.max_supported_record_length is Some
    &&& vt.scan_time is Some
    &&& vt.rnd_pos_time is Some
    &&& vt.open is Some
    &&& vt.close is Some
    &&& vt.write_row is Some
    &&& vt.update_row is Some
    &&& vt.delete_row is Some
    &&& vt.rnd_init is Some
    &&& vt.rnd_end is Some
    &&& vt.rnd_next is Some
    &&& vt.rnd_pos is Some
    &&& vt.position is Some
    &&& vt.info is Some
    &&& vt.extra is Some
    &&& vt.external_lock is Some
    &&& vt.delete_all_rows is Some
    &&& vt.records_in_range is Some
    &&& vt.delete_table is Some
    &&& vt.create is Some
    &&& vt.store_lock is Some
}

/// The index operation slots are populated exactly when the type
/// implements the index set.
pub open spec fn index_slots_match(vt: HandlerVtable, supports_index: bool) -> bool {
    &&& vt.index_type is Some <==> supports_index
    &&& vt.index_flags is Some <==> supports_index
    &&& vt.max_supported_keys is Some <==> supports_index
    &&& vt.max_supported_key_parts is Some <==> supports_index
    &&& vt.max_supported_key_length is Some <==> supports_index
    &&& vt.keyread_time is Some <==> supports_index
    &&& vt.index_read_map is Some <==> supports_index
    &&& vt.index_next is Some <==> supports_index
    &&& vt.index_prev is Some <==> supports_index
    &&& vt.index_first is Some <==> supports_index
    &&& vt.index_last is Some <==> supports_index
}

/// Build the vtable for a concrete handler type: every base slot
/// populated with that type's trampoline, the index and in-place-alter
/// slots populated exactly when the type implements them, and every
/// slot an operation the type leaves unimplemented set to null.
pub fn build_handler_vtable(caps: &HandlerCaps, tag: TypeTag) -> (vt: HandlerVtable)
    ensures
        vtable_well_formed(vt, tag),
        base_slots_populated(vt),
        index_slots_match(vt, caps.supports_index),
        vt.check_if_supported_inplace_alter is Some <==> caps.supports_inplace_alter,
{
    HandlerVtable {
        constructor: Some(TrampolineRef { op: VtableOp::Constructor, type_tag: tag }),
        destructor: Some(TrampolineRef { op: VtableOp::Destructor, type_tag: tag }),
        index_type: if caps.supports_index {
            Some(TrampolineRef { op: VtableOp::IndexType, type_tag: tag })
        } else {
            None
        },
        table_flags: Some(TrampolineRef { op: VtableOp::TableFlags, type_tag: tag }),
        index_flags: if caps.supports_index {
            Some(TrampolineRef { op: VtableOp::IndexFlags, type_tag: tag })
        } else {
            None
        },
        max_supported_record_length: Some(
            TrampolineRef { op: VtableOp::MaxSupportedRecordLength, type_tag: tag },
        ),
        max_supported_keys: if caps.supports_index {
            Some(TrampolineRef { op: VtableOp::MaxSupportedKeys, type_tag: tag })
        } else {
            None
        },
        max_supported_key_parts: if caps.supports_index {
            Some(TrampolineRef { op: VtableOp::MaxSupportedKeyParts, type_tag: tag })
        } else {
            None
        },
        max_supported_key_length: if caps.supports_index {
            Some(TrampolineRef { op: VtableOp::MaxSupportedKeyLength, type_tag: tag })
        } else {
            None
        },
        scan_time: Some(TrampolineRef { op: VtableOp::ScanTime, type_tag: tag }),
        keyread_time: if caps.supports_index {
            Some(TrampolineRef { op: VtableOp::KeyreadTime, type_tag: tag })
        } else {
            None
        },
        rnd_pos_time: Some(TrampolineRef { op: VtableOp::RndPosTime, type_tag: tag }),
        open: Some(TrampolineRef { op: VtableOp::Open, type_tag: tag }),
        close: Some(TrampolineRef { op: VtableOp::Close, type_tag: tag }),
        write_row: Some(TrampolineRef { op: VtableOp::WriteRow, type_tag: tag }),
        update_row: Some(TrampolineRef { op: VtableOp::UpdateRow, type_tag: tag }),
        delete_row: Some(TrampolineRef { op: VtableOp::DeleteRow, type_tag: tag }),
        index_read_map: if caps.supports_index {
            Some(TrampolineRef { op: VtableOp::IndexReadMap, type_tag: tag })
        } else {
            None
        },
        index_next: if caps.supports_index {
            Some(TrampolineRef { op: VtableOp::IndexNext, type_tag: tag })
        } else {
            None
        },
        index_prev: if caps.supports_index {
            Some(TrampolineRef { op: VtableOp::IndexPrev, type_tag: tag })
        } else {
            None
        },
        index_first: if caps.supports_index {
            Some(TrampolineRef { op: VtableOp::IndexFirst, type_tag: tag })
        } else {
            None
        },
        index_last: if caps.supports_index {
            Some(TrampolineRef { op: VtableOp::IndexLast, type_tag: tag })
        } else {
            None
        },
        rnd_init: Some(TrampolineRef { op: VtableOp::RndInit, type_tag: tag }),
        rnd_end: Some(TrampolineRef { op: VtableOp::RndEnd, type_tag: tag }),
        rnd_next: Some(TrampolineRef { op: VtableOp::RndNext, type_tag: tag }),
        rnd_pos: Some(TrampolineRef { op: VtableOp::RndPos, type_tag: tag }),
        position: Some(TrampolineRef { op: VtableOp::Position, type_tag: tag }),
        info: Some(TrampolineRef { op: VtableOp::Info, type_tag: tag }),
        extra: Some(TrampolineRef { op: VtableOp::Extra, type_tag: tag }),
        external_lock: Some(TrampolineRef { op: VtableOp::ExternalLock, type_tag: tag }),
        delete_all_rows: Some(TrampolineRef { op: VtableOp::DeleteAllRows, type_tag: tag }),
        records_in_range: Some(TrampolineRef { op: VtableOp::RecordsInRange, type_tag: tag }),
        delete_table: Some(TrampolineRef { op: VtableOp::DeleteTable, type_tag: tag }),
        create: Some(TrampolineRef { op: VtableOp::Create, type_tag: tag }),
        check_if_supported_inplace_alter: if caps.supports_inplace_alter {
            Some(TrampolineRef { op: VtableOp::CheckIfSupportedInplaceAlter, type_tag: tag })
        } else {
            None
        },
        store_lock: Some(TrampolineRef { op: VtableOp::StoreLock, type_tag: tag }),
    }
}

} // verus!
