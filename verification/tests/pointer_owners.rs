use dynwinrt_js::native_output::{NativeOutputValue, OutputPointerError, SlotValue};
use dynwinrt_js::pointer_owner::{
    as_pointer_bigint, validate_pointer_owner, NativePointerOwner, OwnerError, OwnerObservation, OwnerRelease,
    PointerExportError,
};
use dynwinrt_js::raw_memory::{RawAllocation, RawComError, RawComReference, RawMemoryError};
use dynwinrt_js::typed_buffer::{TypedBufferError, TypedBufferInfo};

fn lent_floats() -> TypedBufferInfo {
    TypedBufferInfo {
        pointer: 0x1000,
        byte_length: 16,
        source_element_size: 4,
        raw_bytes: false,
        typed_array_type: 6,
    }
}

#[test]
fn raw_owners_are_usable_until_released() {
    let live = RawAllocation::allocated(0x2000, 16, 8).unwrap();
    assert_eq!(NativePointerOwner::RawMemory(live).validate(OwnerObservation::Unobserved), Ok(()));
    let mut memory = RawAllocation::allocated(0x2000, 16, 8).unwrap();
    memory.release();
    assert_eq!(
        NativePointerOwner::RawMemory(memory).validate(OwnerObservation::Unobserved),
        Err(OwnerError::Memory(RawMemoryError::Released))
    );
    let mut reference = RawComReference::new(0x3000);
    let mut owner = NativePointerOwner::RawCom(RawComReference::new(0x3000));
    assert_eq!(owner.validate(OwnerObservation::Unobserved), Ok(()));
    assert_eq!(reference.release(), Some(0x3000));
    owner = NativePointerOwner::RawCom(reference);
    assert_eq!(owner.validate(OwnerObservation::Unobserved), Err(OwnerError::Com(RawComError::Gone)));
}

#[test]
fn typed_buffer_owner_requires_the_lent_extent_and_type() {
    let owner = NativePointerOwner::TypedBuffer { reference: 0x77, lent: lent_floats() };
    assert_eq!(owner.validate(OwnerObservation::TypedBuffer(Ok(lent_floats()))), Ok(()));
    let moved = TypedBufferInfo { pointer: 0x2000, ..lent_floats() };
    assert_eq!(
        owner.validate(OwnerObservation::TypedBuffer(Ok(moved))),
        Err(OwnerError::Buffer(TypedBufferError::StorageChanged))
    );
    let retyped = TypedBufferInfo { typed_array_type: 5, ..lent_floats() };
    assert_eq!(
        owner.validate(OwnerObservation::TypedBuffer(Ok(retyped))),
        Err(OwnerError::Buffer(TypedBufferError::StorageChanged))
    );
    assert_eq!(
        owner.validate(OwnerObservation::TypedBuffer(Err(TypedBufferError::Detached))),
        Err(OwnerError::Buffer(TypedBufferError::Detached))
    );
}

#[test]
fn uint8_array_owner_requires_attached_storage_of_the_lent_extent() {
    let owner = NativePointerOwner::Uint8Array { pointer: 0x40, length: 4 };
    assert_eq!(owner.validate(OwnerObservation::Uint8Array { length: 4, data: 0x40, detached: false }), Ok(()));
    assert_eq!(
        owner.validate(OwnerObservation::Uint8Array { length: 4, data: 0x40, detached: true }),
        Err(OwnerError::Buffer(TypedBufferError::Detached))
    );
    assert_eq!(
        owner.validate(OwnerObservation::Uint8Array { length: 8, data: 0x40, detached: false }),
        Err(OwnerError::Buffer(TypedBufferError::StorageChanged))
    );
    let empty = NativePointerOwner::Uint8Array { pointer: 0, length: 0 };
    assert_eq!(empty.validate(OwnerObservation::Uint8Array { length: 0, data: 0x99, detached: false }), Ok(()));
}

#[test]
fn owned_storage_is_always_usable() {
    assert_eq!(NativePointerOwner::WideString(vec![0x41, 0]).validate(OwnerObservation::Unobserved), Ok(()));
    assert_eq!(NativePointerOwner::AnsiString(vec![0x41, 0]).validate(OwnerObservation::Unobserved), Ok(()));
    assert_eq!(NativePointerOwner::Guid(0x50).validate(OwnerObservation::Unobserved), Ok(()));
}

#[test]
fn dropping_an_owner_releases_its_handle_once() {
    let mut block = NativePointerOwner::CoTaskMem(0x500);
    assert_eq!(block.take_release(), Some(OwnerRelease::FreeCoTaskMem(0x500)));
    assert_eq!(block.take_release(), None);
    let mut guid = NativePointerOwner::Guid(0x600);
    assert_eq!(guid.take_release(), Some(OwnerRelease::FreeGuid(0x600)));
    assert_eq!(guid.take_release(), None);
    let mut buffer = NativePointerOwner::TypedBuffer { reference: 0x700, lent: lent_floats() };
    assert_eq!(buffer.take_release(), Some(OwnerRelease::DeleteReference(0x700)));
    assert_eq!(buffer.take_release(), None);
    assert_eq!(buffer.validate(OwnerObservation::TypedBuffer(Ok(lent_floats()))), Ok(()));
    assert_eq!(NativePointerOwner::CoTaskMem(0).take_release(), None);
    assert_eq!(NativePointerOwner::AnsiString(vec![0]).take_release(), None);
}

#[test]
fn pointer_bits_are_exported_only_while_the_owner_is_usable() {
    let value = NativeOutputValue::with_pointer_owner(SlotValue::RawPtr(0x40));
    let owner = Some(NativePointerOwner::Uint8Array { pointer: 0x40, length: 4 });
    let same = OwnerObservation::Uint8Array { length: 4, data: 0x40, detached: false };
    assert_eq!(validate_pointer_owner(&owner, same), Ok(()));
    let same = OwnerObservation::Uint8Array { length: 4, data: 0x40, detached: false };
    assert_eq!(as_pointer_bigint(&value, &owner, same), Ok(0x40));
    let detached = OwnerObservation::Uint8Array { length: 4, data: 0x40, detached: true };
    assert_eq!(
        as_pointer_bigint(&value, &owner, detached),
        Err(PointerExportError::Owner(OwnerError::Buffer(TypedBufferError::Detached)))
    );
    let borrowed = NativeOutputValue::with_borrowed_pointer(SlotValue::Null);
    assert_eq!(as_pointer_bigint(&borrowed, &None, OwnerObservation::Unobserved), Ok(0));
    let object = NativeOutputValue::from_com_result(SlotValue::Object, dynwinrt_js::native_output::PointerOutputKind::Com);
    assert_eq!(
        as_pointer_bigint(&object, &None, OwnerObservation::Unobserved),
        Err(PointerExportError::Output(OutputPointerError::ManagedObject))
    );
}
