//! The opaque-handle bridge: instance lifecycle and type-tag-checked
//! dispatch.
//!
//! The host holds one opaque record per handler instance: a spare slot
//! for the plugin's instance and a type tag. Every generated trampoline
//! carries the tag of the concrete type it was built for and checks it
//! against the handle before touching the instance. A mismatch means a
//! stale or corrupted handle; that is an ABI-fatal condition the caller
//! must treat as unrecoverable (abort, never an operation error code),
//! and the instance is left untouched.

use vstd::prelude::*;

use crate::descriptor::TypeTag;
use crate::handler::{CreateInfo, Handler, Mode, OpenOp, TableFlags};
use crate::storage_error::{spec_storage_error_code, StorageError};
use crate::table::{Create, TableShare};

verus! {

/// An ABI-fatal condition found by a trampoline. Never converted into an
/// operation-level error code: the host would keep calling through a
/// corrupted handle.
#[derive(Clone, Copy, Debug, PartialEq, Eq, Structural)]
pub enum AbiFault {
    /// The handle's tag is not the tag the trampoline was built for.
    TypeTagMismatch,
    /// No instance is behind the handle: an operation ran before
    /// construction or after destruction.
    MissingInstance,
}

/// The host-owned opaque record behind which a handler instance lives:
/// the spare instance slot and the type tag set at construction.
pub struct HandlerBridge<H> {
    /// The boxed instance slot; null (`None`) before construction and
    /// after destruction.
    pub instance: Option<Box<H>>,
    /// Tag of the concrete type the instance was constructed as.
    pub type_tag: TypeTag,
}

/// The handle is safe for a trampoline built for `expected`: the tags
/// agree and an instance is present.
pub open spec fn bridge_ready<H>(b: HandlerBridge<H>, expected: TypeTag) -> bool {
    b.type_tag == expected && b.instance is Some
}

/// A dispatch outcome: the host's integer return value, zero for
/// success or the code of one storage error; never anything outside the
/// host's error-code space.
pub open spec fn host_return_code(code: i32) -> bool {
    code == 0 || exists|e: StorageError| code == spec_storage_error_code(e) as i32
}

/// Construct the instance behind the handle: box it into the spare slot
/// and stamp the handle with the concrete type's tag.
pub fn wrap_constructor<H: Handler>(this: &mut HandlerBridge<H>, instance: H, tag: TypeTag)
    ensures
        final(this).instance matches Some(b) && *b == instance,
        final(this).type_tag == tag,
{
    this.instance = Some(Box::new(instance));
    this.type_tag = tag;
}

/// Release the instance behind the handle exactly once and null the
/// spare slot: a second call finds the slot already null and is inert,
/// never a double free. A tag mismatch is fatal and leaves the handle
/// untouched.
pub fn wrap_destructor<H: Handler>(this: &mut HandlerBridge<H>, expected_tag: TypeTag) -> (r:
    Result<(), AbiFault>)
    ensures
        r is Ok <==> old(this).type_tag == expected_tag,
        r is Err ==> *final(this) == *old(this) && r == Err::<(), AbiFault>(
            AbiFault::TypeTagMismatch,
        ),
        r is Ok ==> final(this).instance is None && final(this).type_tag == old(this).type_tag,
{
    if this.type_tag != expected_tag {
        return Err(AbiFault::TypeTagMismatch);
    }
    let released = this.instance.take();
    Ok(())
}

/// Tag-checked dispatch to `write_row`: marshal the row buffer to the
/// instance and the native result back to the host's integer encoding,
/// zero for success.
pub fn wrap_write_row<H: Handler>(this: &mut HandlerBridge<H>, expected_tag: TypeTag, buf: &[u8])
    -> (r: Result<i32, AbiFault>)
    ensures
        r is Ok <==> bridge_ready(*old(this), expected_tag),
        r is Err ==> *final(this) == *old(this),
        r == Err::<i32, AbiFault>(AbiFault::TypeTagMismatch) <==> old(this).type_tag
            != expected_tag,
        r matches Ok(code) ==> host_return_code(code),
        final(this).type_tag == old(this).type_tag,
        final(this).instance is Some <==> old(this).instance is Some,
{
    if this.type_tag != expected_tag {
        return Err(AbiFault::TypeTagMismatch);
    }
    match &mut this.instance {
        Some(h) => match h.write_row(buf) {
            Ok(()) => Ok(0),
            Err(e) => Ok(e.code() as i32),
        },
        None => Err(AbiFault::MissingInstance),
    }
}

/// Tag-checked dispatch to `update_row`.
pub fn wrap_update_row<H: Handler>(
    this: &mut HandlerBridge<H>,
    expected_tag: TypeTag,
    old_row: &[u8],
    new_row: &[u8],
) -> (r: Result<i32, AbiFault>)
    ensures
        r is Ok <==> bridge_ready(*old(this), expected_tag),
        r is Err ==> *final(this) == *old(this),
        r == Err::<i32, AbiFault>(AbiFault::TypeTagMismatch) <==> old(this).type_tag
            != expected_tag,
        r matches Ok(code) ==> host_return_code(code),
        final(this).type_tag == old(this).type_tag,
        final(this).instance is Some <==> old(this).instance is Some,
{
    if this.type_tag != expected_tag {
        return Err(AbiFault::TypeTagMismatch);
    }
    match &mut this.instance {
        Some(h) => match h.update_row(old_row, new_row) {
            Ok(()) => Ok(0),
            Err(e) => Ok(e.code() as i32),
        },
        None => Err(AbiFault::MissingInstance),
    }
}

/// Tag-checked dispatch to `delete_row`.
pub fn wrap_delete_row<H: Handler>(this: &mut HandlerBridge<H>, expected_tag: TypeTag, buf: &[u8])
    -> (r: Result<i32, AbiFault>)
    ensures
        r is Ok <==> bridge_ready(*old(this), expected_tag),
        r is Err ==> *final(this) == *old(this),
        r == Err::<i32, AbiFault>(AbiFault::TypeTagMismatch) <==> old(this).type_tag
            != expected_tag,
        r matches Ok(code) ==> host_return_code(code),
        final(this).type_tag == old(this).type_tag,
        final(this).instance is Some <==> old(this).instance is Some,
{
    if this.type_tag != expected_tag {
        return Err(AbiFault::TypeTagMismatch);
    }
    match &mut this.instance {
        Some(h) => match h.delete_row(buf) {
            Ok(()) => Ok(0),
            Err(e) => Ok(e.code() as i32),
        },
        None => Err(AbiFault::MissingInstance),
    }
}

/// Tag-checked dispatch to `delete_all_rows`.
pub fn wrap_delete_all_rows<H: Handler>(this: &mut HandlerBridge<H>, expected_tag: TypeTag) -> (r:
    Result<i32, AbiFault>)
    ensures
        r is Ok <==> bridge_ready(*old(this), expected_tag),
        r is Err ==> *final(this) == *old(this),
        r == Err::<i32, AbiFault>(AbiFault::TypeTagMismatch) <==> old(this).type_tag
            != expected_tag,
        r matches Ok(code) ==> host_return_code(code),
        final(this).type_tag == old(this).type_tag,
        final(this).instance is Some <==> old(this).instance is Some,
{
    if this.type_tag != expected_tag {
        return Err(AbiFault::TypeTagMismatch);
    }
    match &mut this.instance {
        Some(h) => match h.delete_all_rows() {
            Ok(()) => Ok(0),
            Err(e) => Ok(e.code() as i32),
        },
        None => Err(AbiFault::MissingInstance),
    }
}

/// Tag-checked dispatch to `table_flags`: hands the host the raw
/// capability bits.
pub fn wrap_table_flags<H: Handler>(this: &HandlerBridge<H>, expected_tag: TypeTag) -> (r: Result<
    u64,
    AbiFault,
>)
    ensures
        r is Ok <==> bridge_ready(*this, expected_tag),
        r == Err::<u64, AbiFault>(AbiFault::TypeTagMismatch) <==> this.type_tag != expected_tag,
{
    if this.type_tag != expected_tag {
        return Err(AbiFault::TypeTagMismatch);
    }
    match &this.instance {
        Some(h) => {
            let flags: TableFlags = h.table_flags();
            Ok(flags.bits)
        },
        None => Err(AbiFault::MissingInstance),
    }
}

/// Tag-checked dispatch to `max_supported_record_length`.
pub fn wrap_max_supported_record_length<H: Handler>(
    this: &HandlerBridge<H>,
    expected_tag: TypeTag,
) -> (r: Result<usize, AbiFault>)
    ensures
        r is Ok <==> bridge_ready(*this, expected_tag),
        r == Err::<usize, AbiFault>(AbiFault::TypeTagMismatch) <==> this.type_tag != expected_tag,
{
    if this.type_tag != expected_tag {
        return Err(AbiFault::TypeTagMismatch);
    }
    match &this.instance {
        Some(h) => Ok(h.max_supported_record_length()),
        None => Err(AbiFault::MissingInstance),
    }
}

/// Tag-checked dispatch to `store_lock`.
pub fn wrap_store_lock<H: Handler>(this: &HandlerBridge<H>, expected_tag: TypeTag) -> (r: Result<
    (),
    AbiFault,
>)
    ensures
        r is Ok <==> bridge_ready(*this, expected_tag),
        r == Err::<(), AbiFault>(AbiFault::TypeTagMismatch) <==> this.type_tag != expected_tag,
{
    if this.type_tag != expected_tag {
        return Err(AbiFault::TypeTagMismatch);
    }
    match &this.instance {
        Some(h) => {
            h.store_lock();
            Ok(())
        },
        None => Err(AbiFault::MissingInstance),
    }
}

/// Tag-checked dispatch to `create`: marshal the table name and creation
/// parameters, and the native result back to the host's encoding.
pub fn wrap_create<H: Handler>(
    this: &HandlerBridge<H>,
    expected_tag: TypeTag,
    name: &str,
    form: &TableShare<Create>,
    create_info: &CreateInfo,
) -> (r: Result<i32, AbiFault>)
    ensures
        r is Ok <==> bridge_ready(*this, expected_tag),
        r == Err::<i32, AbiFault>(AbiFault::TypeTagMismatch) <==> this.type_tag != expected_tag,
        r matches Ok(code) ==> host_return_code(code),
{
    if this.type_tag != expected_tag {
        return Err(AbiFault::TypeTagMismatch);
    }
    match &this.instance {
        Some(h) => match h.create(name, form, create_info) {
            Ok(()) => Ok(0),
            Err(e) => Ok(e.code() as i32),
        },
        None => Err(AbiFault::MissingInstance),
    }
}

/// Dispatch to the associated `open`: construction-free, so only the
/// result marshaling is done here.
pub fn wrap_open<H: Handler>(name: &str, mode: Mode, open_options: OpenOp) -> (r: i32)
    ensures
        host_return_code(r),
{
    match H::open(name, mode, open_options) {
        Ok(()) => 0,
        Err(e) => e.code() as i32,
    }
}

} // verus!
