//! What keeps the target of a native pointer argument alive, whether it may
//! still be used, and what must be released once it is dropped.
use vstd::prelude::*;
use crate::raw_memory::{RawAllocation, RawComError, RawComReference, RawMemoryError};
use crate::native_output::{spec_pointer_bits, NativeOutputValue, OutputPointerError};
use crate::typed_buffer::{spec_typed_buffer_owner_check, validate_typed_buffer_owner, TypedBufferError, TypedBufferInfo};

verus! {

/// The owner of the memory a native pointer argument points into.
pub enum NativePointerOwner {
    /// A Uint8Array lent by address: the address of its first byte (0 when
    /// empty) and its length.
    Uint8Array { pointer: usize, length: usize },
    /// A typed array lent to a COM buffer, held through a Node-API
    /// reference (0 once deleted), and the extent that was lent.
    TypedBuffer { reference: usize, lent: TypedBufferInfo },
    /// A block from the COM task allocator (0 once freed).
    CoTaskMem(usize),
    /// A boxed GUID (0 once freed).
    Guid(usize),
    /// Owned UTF-16 storage.
    WideString(Vec<u16>),
    /// Owned ANSI storage.
    AnsiString(Vec<u8>),
    /// A raw memory view.
    RawMemory(RawAllocation),
    /// A raw COM reference.
    RawCom(RawComReference),
}

/// What the owner's JavaScript value reports now, read by the caller for
/// the owners that lend a JavaScript array.
pub enum OwnerObservation {
    /// Nothing was read (owners that lend no JavaScript array).
    Unobserved,
    /// The extent the typed array reports now, or why it is refused.
    TypedBuffer(Result<TypedBufferInfo, TypedBufferError>),
    /// What the Uint8Array reports now.
    Uint8Array { length: usize, data: usize, detached: bool },
}

/// Why an owner may no longer be used.
#[derive(Clone, Copy, Debug, PartialEq, Eq, Structural)]
pub enum OwnerError {
    Memory(RawMemoryError),
    Com(RawComError),
    Buffer(TypedBufferError),
}

/// What must be released when an owner is dropped.
#[derive(Clone, Copy, Debug, PartialEq, Eq, Structural)]
pub enum OwnerRelease {
    /// Free a block with the COM task allocator.
    FreeCoTaskMem(usize),
    /// Free a boxed GUID.
    FreeGuid(usize),
    /// Delete a Node-API reference.
    DeleteReference(usize),
}

/// The owners that lend a JavaScript array come with what it reports now.
pub open spec fn observation_fits(owner: NativePointerOwner, current: OwnerObservation) -> bool {
    match owner {
        NativePointerOwner::TypedBuffer { .. } => current is TypedBuffer,
        NativePointerOwner::Uint8Array { .. } => current is Uint8Array,
        _ => true,
    }
}

/// Whether an owner may still be used: raw memory and raw COM references
/// while live; a typed buffer while its array has the lent extent and
/// type; a Uint8Array while attached with the lent length and (when
/// nonempty) address; the other owners always.
pub open spec fn spec_validate(owner: NativePointerOwner, current: OwnerObservation) -> Result<(), OwnerError> {
    match owner {
        NativePointerOwner::RawMemory(m) => if m@.released {
            Err(OwnerError::Memory(RawMemoryError::Released))
        } else {
            Ok(())
        },
        NativePointerOwner::RawCom(c) => if c@ is None {
            Err(OwnerError::Com(RawComError::Gone))
        } else {
            Ok(())
        },
        NativePointerOwner::TypedBuffer { lent, .. } => match current {
            OwnerObservation::TypedBuffer(now) => match spec_typed_buffer_owner_check(lent, now) {
                Err(e) => Err(OwnerError::Buffer(e)),
                Ok(()) => Ok(()),
            },
            _ => Ok(()),
        },
        NativePointerOwner::Uint8Array { pointer, length } => match current {
            OwnerObservation::Uint8Array { length: now_length, data, detached } => if detached {
                Err(OwnerError::Buffer(TypedBufferError::Detached))
            } else if now_length != length || (if now_length == 0 { 0 } else { data }) != pointer {
                Err(OwnerError::Buffer(TypedBufferError::StorageChanged))
            } else {
                Ok(())
            },
            _ => Ok(()),
        },
        _ => Ok(()),
    }
}

/// What dropping an owner releases: a task allocator block, a GUID box or
/// a Node-API reference that is still held.
pub open spec fn spec_release(owner: NativePointerOwner) -> Option<OwnerRelease> {
    match owner {
        NativePointerOwner::CoTaskMem(p) => if p != 0 { Some(OwnerRelease::FreeCoTaskMem(p)) } else { None },
        NativePointerOwner::Guid(p) => if p != 0 { Some(OwnerRelease::FreeGuid(p)) } else { None },
        NativePointerOwner::TypedBuffer { reference, .. } => if reference != 0 {
            Some(OwnerRelease::DeleteReference(reference))
        } else {
            None
        },
        _ => None,
    }
}

/// The owner once its release was taken: the released handle is cleared,
/// everything else is kept.
pub open spec fn spec_after_release(owner: NativePointerOwner) -> NativePointerOwner {
    match owner {
        NativePointerOwner::CoTaskMem(_) => NativePointerOwner::CoTaskMem(0),
        NativePointerOwner::Guid(_) => NativePointerOwner::Guid(0),
        NativePointerOwner::TypedBuffer { lent, .. } => NativePointerOwner::TypedBuffer { reference: 0, lent },
        _ => owner,
    }
}

impl NativePointerOwner {
    /// Checks that the owner may still be used, given what its JavaScript
    /// array reports now.
    pub fn validate(&self, current: OwnerObservation) -> (r: Result<(), OwnerError>)
        requires
            observation_fits(*self, current),
        ensures
            r == spec_validate(*self, current),
    {
        match self {
            NativePointerOwner::RawMemory(m) => match m.validate_live() {
                Err(e) => Err(OwnerError::Memory(e)),
                Ok(()) => Ok(()),
            },
            NativePointerOwner::RawCom(c) => match c.validate_live() {
                Err(e) => Err(OwnerError::Com(e)),
                Ok(()) => Ok(()),
            },
            NativePointerOwner::TypedBuffer { lent, .. } => match current {
                OwnerObservation::TypedBuffer(now) => match validate_typed_buffer_owner(*lent, now) {
                    Err(e) => Err(OwnerError::Buffer(e)),
                    Ok(()) => Ok(()),
                },
                _ => Ok(()),
            },
            NativePointerOwner::Uint8Array { pointer, length } => match current {
                OwnerObservation::Uint8Array { length: now_length, data, detached } => {
                    if detached {
                        return Err(OwnerError::Buffer(TypedBufferError::Detached));
                    }
                    let now_pointer = if now_length == 0 { 0 } else { data };
                    if now_length != *length || now_pointer != *pointer {
                        return Err(OwnerError::Buffer(TypedBufferError::StorageChanged));
                    }
                    Ok(())
                },
                _ => Ok(()),
            },
            _ => Ok(()),
        }
    }

    /// Takes what dropping the owner must release, and clears it so that it
    /// is released once.
    pub fn take_release(&mut self) -> (r: Option<OwnerRelease>)
        ensures
            r == spec_release(*old(self)),
            *final(self) == spec_after_release(*old(self)),
    {
        let (release, cleared) = match &*self {
            NativePointerOwner::CoTaskMem(p) => {
                let p = *p;
                (if p != 0 { Some(OwnerRelease::FreeCoTaskMem(p)) } else { None }, Some(NativePointerOwner::CoTaskMem(0)))
            },
            NativePointerOwner::Guid(p) => {
                let p = *p;
                (if p != 0 { Some(OwnerRelease::FreeGuid(p)) } else { None }, Some(NativePointerOwner::Guid(0)))
            },
            NativePointerOwner::TypedBuffer { reference, lent } => {
                let reference = *reference;
                let lent = *lent;
                (
                    if reference != 0 { Some(OwnerRelease::DeleteReference(reference)) } else { None },
                    Some(NativePointerOwner::TypedBuffer { reference: 0, lent }),
                )
            },
            _ => (None, None),
        };
        if let Some(owner) = cleared {
            *self = owner;
        }
        release
    }
}

/// Why a value's pointer could not be exported as bits.
#[derive(Clone, Copy, Debug, PartialEq, Eq, Structural)]
pub enum PointerExportError {
    /// The value's owner may no longer be used.
    Owner(OwnerError),
    /// The value holds no exportable pointer.
    Output(OutputPointerError),
}

/// The owner, if any, of a value: a value without one is always usable.
pub open spec fn spec_validate_pointer_owner(owner: Option<NativePointerOwner>, current: OwnerObservation) -> Result<(), OwnerError> {
    match owner {
        None => Ok(()),
        Some(o) => spec_validate(o, current),
    }
}

/// Checks the owner of a value, if it has one.
pub fn validate_pointer_owner(owner: &Option<NativePointerOwner>, current: OwnerObservation) -> (r: Result<(), OwnerError>)
    requires
        *owner matches Some(o) ==> observation_fits(o, current),
    ensures
        r == spec_validate_pointer_owner(*owner, current),
{
    match owner {
        None => Ok(()),
        Some(o) => o.validate(current),
    }
}

/// The pointer bits a value exports: its owner is revalidated first, then
/// a raw pointer gives its address and null gives zero; a managed object
/// or any other value is refused.
pub open spec fn spec_as_pointer_bits(value: NativeOutputValue, owner: Option<NativePointerOwner>, current: OwnerObservation)
    -> Result<u64, PointerExportError>
{
    match spec_validate_pointer_owner(owner, current) {
        Err(e) => Err(PointerExportError::Owner(e)),
        Ok(()) => match spec_pointer_bits(value@.slot) {
            Err(e) => Err(PointerExportError::Output(e)),
            Ok(bits) => Ok(bits as u64),
        },
    }
}

/// The pointer bits of a value, after its owner was revalidated.
pub fn as_pointer_bigint(value: &NativeOutputValue, owner: &Option<NativePointerOwner>, current: OwnerObservation)
    -> (r: Result<u64, PointerExportError>)
    requires
        *owner matches Some(o) ==> observation_fits(o, current),
    ensures
        r == spec_as_pointer_bits(*value, *owner, current),
{
    match validate_pointer_owner(owner, current) {
        Err(e) => return Err(PointerExportError::Owner(e)),
        Ok(()) => {},
    }
    match value.pointer_bits() {
        Err(e) => Err(PointerExportError::Output(e)),
        Ok(bits) => Ok(bits as u64),
    }
}

/// Dropping an owner twice releases nothing the second time.
pub proof fn lemma_release_once(owner: NativePointerOwner)
    ensures
        spec_release(spec_after_release(owner)) is None,
        spec_after_release(spec_after_release(owner)) == spec_after_release(owner),
{
}

} // verus!
