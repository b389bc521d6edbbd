use dynwinrt_js::js_integer::{bigint_i64, bigint_isize, bigint_u64, bigint_usize, JsBigInt};
use dynwinrt_js::raw_memory::{
    validate_allocation_request, CleanupRule, DynComRaw, DynComRawCleanup, DynComRawPointer,
    RawAllocation, RawComError, RawComReference, RawMemoryError, RawPointerError, RawPointerKind,
};
use dynwinrt_js::native_output::{OutputPointerError, PointerProvenance, SlotValue};
use dynwinrt_js::pointer_owner::{NativePointerOwner, OwnerError, OwnerObservation};

const WIDTH: usize = std::mem::size_of::<usize>();

fn owned(address: usize, size: usize, alignment: usize) -> RawAllocation {
    validate_allocation_request(size, alignment).unwrap();
    RawAllocation::allocated(address, size, alignment).ok().unwrap()
}

#[test]
fn allocation_rejects_zero_invalid_alignment_and_layout_overflow() {
    assert!(matches!(validate_allocation_request(0, 1), Err(RawMemoryError::ZeroSize)));
    assert!(matches!(validate_allocation_request(1, 0), Err(RawMemoryError::InvalidAlignment)));
    assert!(matches!(validate_allocation_request(1, 3), Err(RawMemoryError::InvalidAlignment)));
    assert!(matches!(
        validate_allocation_request(1, 1usize << (usize::BITS - 1)),
        Err(RawMemoryError::LayoutTooLarge)
    ));
    assert!(matches!(validate_allocation_request(usize::MAX, 2), Err(RawMemoryError::LayoutTooLarge)));
    assert!(validate_allocation_request(64, 32).is_ok());
}

#[test]
fn allocation_is_aligned_zeroed_and_released_once() {
    let mut memory = owned(0x1000, 64, 32);
    let pointer = DynComRawPointer::into_memory(&memory, 0).ok().unwrap();
    assert_eq!(memory.pointer_address(0).ok().unwrap() % 32, 0);
    assert_eq!(pointer.kind(), RawPointerKind::Owned { offset: 0 });
    assert!(!memory.released());
    assert!(memory.release());
    assert!(!memory.release());
    assert!(memory.released());
    assert!(matches!(memory.range_address(0, 1), Err(RawMemoryError::Released)));
    assert!(matches!(memory.validate_live(), Err(RawMemoryError::Released)));
}

#[test]
fn allocation_end_address_must_not_overflow() {
    assert!(matches!(
        RawAllocation::allocated(usize::MAX - 3, 8, 1),
        Err(RawMemoryError::AllocationAddressOverflow)
    ));
}

#[test]
fn exact_interface_output_slot_preflight_is_pointer_width_aware() {
    let mut valid = owned(0x1000, WIDTH, WIDTH);
    DynComRaw::validate_exact_output_slot(&valid).ok().unwrap();

    let undersized = owned(0x2000, WIDTH - 1, 1);
    assert!(matches!(DynComRaw::validate_exact_output_slot(&undersized), Err(RawMemoryError::SlotTooSmall)));

    let base = owned(0x3000, WIDTH * 2, WIDTH);
    let address = base.pointer_address(0).ok().unwrap() + 1;
    let misaligned = RawAllocation::external(address, WIDTH, 1).ok().unwrap();
    assert!(matches!(DynComRaw::validate_exact_output_slot(&misaligned), Err(RawMemoryError::SlotMisaligned)));

    valid.release();
    assert!(matches!(DynComRaw::validate_exact_output_slot(&valid), Err(RawMemoryError::Released)));
    assert_eq!(DynComRaw::pointer_size() as usize, WIDTH);
}

#[test]
fn bounded_external_memory_rejects_invalid_ranges_and_alignment() {
    assert!(matches!(RawAllocation::external(0, 1, 1), Err(RawMemoryError::NullNonEmptyView)));
    assert!(RawAllocation::external(0, 0, 1).is_ok());
    assert!(matches!(RawAllocation::external(0, 0, 3), Err(RawMemoryError::InvalidAlignment)));
    let address = 0x4000usize;
    assert!(matches!(RawAllocation::external(address + 1, 8, 8), Err(RawMemoryError::MisalignedAddress)));
    assert!(matches!(RawAllocation::external(usize::MAX - 3, 8, 1), Err(RawMemoryError::AddressOverflow)));
    assert!(RawAllocation::external(address, usize::MAX, 1).is_err());

    let memory = owned(0x5000, 16, 8);
    let pointer = DynComRawPointer::into_memory(&memory, 8).ok().unwrap();
    assert!(matches!(
        pointer.view_address(&memory, 9, Ok(0x5008)),
        Err(RawPointerError::Memory(RawMemoryError::RangeExceeds { offset: 8, end: 17, size: 16 }))
    ));
    assert_eq!(pointer.view_address(&memory, 8, Ok(0x5008)).ok().unwrap(), 0x5008);
}

#[test]
fn bounded_external_memory_reuses_checks_without_owning_storage() {
    let pointer = DynComRawPointer::from_address(0x6000);
    let address = pointer.view_address(&owned(0x100, 1, 1), 32, Err(RawPointerError::Consumed)).ok().unwrap();
    let mut memory = RawAllocation::external(address, 32, 16).ok().unwrap();
    assert_eq!(memory.range_address(4, 4).ok().unwrap(), 0x6004);
    let child = DynComRawPointer::into_memory(&memory, 8).ok().unwrap();
    memory.release();
    memory.release();
    assert!(memory.released());
    let child_offset = match child.kind() {
        RawPointerKind::Owned { offset } => offset,
        _ => unreachable!(),
    };
    let owner = memory.pointer_address(child_offset).map_err(RawPointerError::Memory);
    assert!(child.address_bits(owner).is_err());
}

#[test]
fn offsets_bounds_overflow_and_integer_precision_are_checked() {
    let memory = owned(0x7000, 16, 8);
    assert!(DynComRawPointer::into_memory(&memory, 16).is_ok());
    assert!(DynComRawPointer::into_memory(&memory, 17).is_err());
    assert!(matches!(memory.range_address(13, 4), Err(RawMemoryError::RangeExceeds { offset: 13, end: 17, size: 16 })));
    assert!(matches!(memory.range_address(usize::MAX, 2), Err(RawMemoryError::OffsetOverflow)));

    let pointer = DynComRawPointer::into_memory(&memory, 8).ok().unwrap();
    assert!(pointer.offset(&memory, 8).is_ok());
    assert!(pointer.offset(&memory, 9).is_err());
    assert!(matches!(pointer.offset(&memory, usize::MAX), Err(RawPointerError::OffsetOverflow)));
}

#[test]
fn pointer_width_values_are_range_checked() {
    assert_eq!(bigint_isize(&JsBigInt::from_i64(-1)).ok().unwrap(), -1);
    assert_eq!(bigint_usize(&JsBigInt::from_u64(usize::MAX as u64)).ok().unwrap(), usize::MAX);
    assert!(bigint_usize(&JsBigInt::from_i64(-1)).is_err());
    assert!(bigint_usize(&JsBigInt::from_words(false, vec![1, 1])).is_err());
}

#[test]
fn external_and_null_pointers_are_pass_through_only() {
    let memory = owned(0x8000, 16, 8);
    let external = DynComRawPointer::from_address(0x1234);
    assert_eq!(external.address_bits(Err(RawPointerError::Consumed)).ok().unwrap(), 0x1234);
    assert!(!external.is_null(Err(RawPointerError::Consumed)).ok().unwrap());
    assert!(matches!(external.offset(&memory, 1), Err(RawPointerError::ExpectedOwned)));

    let null = DynComRawPointer::null();
    assert_eq!(null.address_bits(Err(RawPointerError::Consumed)).ok().unwrap(), 0);
    assert!(null.is_null(Err(RawPointerError::Consumed)).ok().unwrap());
    assert_eq!(null.to_value(Err(RawPointerError::Consumed)).ok().unwrap().slot(), SlotValue::RawPtr(0));
}

#[test]
fn raw_pointer_values_are_borrowed_and_cannot_be_adopted() {
    let memory = owned(0x9000, 16, 8);
    let pointer = DynComRawPointer::into_memory(&memory, 0).ok().unwrap();
    let owner = memory.pointer_address(0).map_err(RawPointerError::Memory);
    let mut owned_value = pointer.to_value(owner).ok().unwrap();
    assert_eq!(owned_value.slot(), SlotValue::RawPtr(0x9000));
    assert_eq!(
        owned_value.take_native_output_pointer(PointerProvenance::ComOutput),
        Err(OutputPointerError::OwnerBacked)
    );

    let mut external = DynComRawPointer::from_address(0x1234).to_value(Err(RawPointerError::Consumed)).ok().unwrap();
    assert_eq!(
        external.take_native_output_pointer(PointerProvenance::ComOutput),
        Err(OutputPointerError::WrongProvenance {
            found: PointerProvenance::Borrowed,
            expected: PointerProvenance::ComOutput,
        })
    );
    assert_eq!(external.slot(), SlotValue::RawPtr(0x1234));
}

#[test]
fn consumed_pointers_have_no_value_and_detached_ones_stay_owned() {
    let mut pointer = DynComRawPointer::from_address(0x10);
    pointer.consume();
    assert!(matches!(pointer.to_value(Ok(0x10)), Err(RawPointerError::Consumed)));
    let mut detached = DynComRawPointer::detached_com().to_value(Ok(0x20)).ok().unwrap();
    assert_eq!(detached.provenance(), PointerProvenance::DetachedCom);
    assert_eq!(
        detached.take_native_output_pointer(PointerProvenance::ComOutput),
        Err(OutputPointerError::OwnerBacked)
    );
    let borrowed = DynComRawPointer::com_borrowed().to_value(Err(RawPointerError::Memory(RawMemoryError::Released)));
    assert!(matches!(borrowed, Err(RawPointerError::Memory(RawMemoryError::Released))));
}

#[test]
fn raw_cleanup_reports_handle_failures_and_consumes_successes() {
    let mut event_pointer = DynComRawPointer::from_address(0x44);
    assert_eq!(DynComRawCleanup::begin(&mut event_pointer, CleanupRule::AlwaysCall).ok().unwrap(), Some(0x44));
    DynComRawCleanup::finish(&mut event_pointer, true);
    assert!(matches!(
        DynComRawCleanup::begin(&mut event_pointer, CleanupRule::AlwaysCall),
        Err(RawPointerError::AlreadyConsumed)
    ));

    let mut invalid_handle = DynComRawPointer::null();
    assert_eq!(DynComRawCleanup::begin(&mut invalid_handle, CleanupRule::AlwaysCall).ok().unwrap(), Some(0));
    DynComRawCleanup::finish(&mut invalid_handle, false);
    assert_eq!(invalid_handle.address_bits(Err(RawPointerError::Consumed)).ok().unwrap(), 0);
}

#[test]
fn cleanup_rules_consume_exactly_once() {
    let mut co_task = DynComRawPointer::from_address(0x10);
    assert_eq!(DynComRawCleanup::begin(&mut co_task, CleanupRule::ConsumeFirst).ok().unwrap(), Some(0x10));
    assert_eq!(co_task.kind(), RawPointerKind::Consumed);
    assert!(matches!(co_task.address_bits(Ok(1)), Err(RawPointerError::Consumed)));

    let mut null_local = DynComRawPointer::null();
    assert_eq!(DynComRawCleanup::begin(&mut null_local, CleanupRule::NullIsNoOp).ok().unwrap(), None);
    assert_eq!(null_local.kind(), RawPointerKind::Consumed);

    let mut local = DynComRawPointer::from_address(0x20);
    assert_eq!(DynComRawCleanup::begin(&mut local, CleanupRule::NullIsNoOp).ok().unwrap(), Some(0x20));
    assert_eq!(local.kind(), RawPointerKind::External { address: 0x20 });
    DynComRawCleanup::finish(&mut local, false);
    assert_eq!(local.kind(), RawPointerKind::External { address: 0x20 });
    DynComRawCleanup::finish(&mut local, true);
    assert_eq!(local.kind(), RawPointerKind::Consumed);

    let memory = owned(0x9000, 8, 8);
    let mut owned_pointer = DynComRawPointer::into_memory(&memory, 0).ok().unwrap();
    assert!(matches!(
        DynComRawCleanup::begin(&mut owned_pointer, CleanupRule::ConsumeFirst),
        Err(RawPointerError::ExpectedExternalResource)
    ));
}

#[test]
fn assumed_transfers_take_external_pointers_once() {
    let mut pointer = DynComRawPointer::from_address(0x1234);
    assert_eq!(pointer.take_assumed_transferred_address().ok().unwrap(), 0x1234);
    assert!(matches!(pointer.take_assumed_transferred_address(), Err(RawPointerError::AlreadyConsumed)));

    let mut null = DynComRawPointer::null();
    assert!(matches!(null.take_assumed_transferred_address(), Err(RawPointerError::NullTransfer)));
    assert_eq!(null.kind(), RawPointerKind::Consumed);

    let mut borrowed = DynComRawPointer::com_borrowed();
    assert!(matches!(borrowed.take_assumed_transferred_address(), Err(RawPointerError::ExpectedExternalTransfer)));
    assert!(matches!(borrowed.check_detached_com(), Err(RawPointerError::ExpectedDetachedCom)));
    assert!(DynComRawPointer::detached_com().check_detached_com().is_ok());
}

#[test]
fn transfer_to_memory_is_atomic_on_failure_and_one_shot_on_success() {
    let mut owner = RawComReference::new(0xC0FFEE0);
    let too_small = owned(0xA000, 1, 1);
    assert!(matches!(owner.transfer_to_memory(&too_small, 0), Err(RawComError::Memory(_))));
    assert!(!owner.released());

    let slot = owned(0xB000, WIDTH, WIDTH);
    let address = owner.address().unwrap();
    assert_eq!(owner.transfer_to_memory(&slot, 0).unwrap(), (0xB000, address));
    assert!(owner.released());
    assert_eq!(owner.transfer_to_memory(&slot, 0), Err(RawComError::Gone));

    let mut returned = DynComRawPointer::from_address(address);
    assert!(matches!(returned.check_detached_com(), Err(RawPointerError::ExpectedDetachedCom)));
    assert_eq!(returned.take_assumed_transferred_address().ok().unwrap(), address);
}

#[test]
fn owned_raw_com_pointer_detaches_and_reconciles_exactly_once() {
    let mut owner = RawComReference::new(0x1000);
    assert_eq!(owner.take_value().unwrap(), 0x1000);
    assert!(owner.released());
    assert_eq!(owner.take_value(), Err(RawComError::Gone));
    assert_eq!(owner.release(), None);
    assert_eq!(owner.validate_live(), Err(RawComError::Gone));

    let mut held = RawComReference::new(0x2000);
    assert!(held.validate_live().is_ok());
    assert_eq!(held.release(), Some(0x2000));
    assert_eq!(held.release(), None);
}

fn free_once(address: usize, rule: CleanupRule) {
    let mut pointer = DynComRawPointer::from_address(address);
    assert_eq!(DynComRawCleanup::begin(&mut pointer, rule).ok().unwrap(), Some(address));
    DynComRawCleanup::finish(&mut pointer, true);
    assert!(DynComRawCleanup::begin(&mut pointer, rule).is_err());
}

#[test]
fn raw_cleanup_frees_standard_memory_and_automation_resources_once() {
    // coTaskMemFree and sysFreeString consume first; localFree, globalFree
    // and safeArrayDestroy consume once the native call succeeded.
    free_once(0x1000, CleanupRule::ConsumeFirst);
    free_once(0x2000, CleanupRule::NullIsNoOp);
    free_once(0x3000, CleanupRule::NullIsNoOp);
    free_once(0x4000, CleanupRule::ConsumeFirst);
    free_once(0x5000, CleanupRule::NullIsNoOp);

    // variantClear and propVariantClear clear in place and may repeat.
    let variant = owned(0x6000, 24, 8);
    assert_eq!(variant.range_address(0, 24).ok().unwrap(), 0x6000);
    assert_eq!(variant.range_address(0, 24).ok().unwrap(), 0x6000);
    let prop_variant = owned(0x7000, 24, 8);
    assert_eq!(prop_variant.range_address(0, 24).ok().unwrap(), 0x7000);
    assert_eq!(prop_variant.range_address(0, 24).ok().unwrap(), 0x7000);
}

#[test]
fn detached_pointer_drop_and_iid_mismatch_release_exactly_once() {
    let mut reference = RawComReference::new(0xc000);
    assert_eq!(reference.take_value().ok().unwrap(), 0xc000);
    assert!(reference.released());
    let mut detached = DynComRawPointer::detached_com();
    assert!(detached.check_detached_com().is_ok());
    // A refused adoption consumes the detached pointer; its address is gone.
    detached.consume();
    assert!(matches!(detached.check_detached_com(), Err(RawPointerError::AlreadyConsumed)));
    assert!(matches!(detached.address_bits(Ok(0xc000)), Err(RawPointerError::Consumed)));
    assert!(matches!(reference.take_value(), Err(RawComError::Gone)));
}

#[test]
fn owned_raw_com_pointer_addref_qi_and_atomic_managed_transitions() {
    let mut owner = RawComReference::new(0xd000);
    assert_eq!(owner.address().ok().unwrap(), 0xd000);
    assert_eq!(owner.release(), Some(0xd000));
    assert_eq!(owner.release(), None);
    assert!(owner.released());

    let mut mismatch = RawComReference::new(0xd000);
    assert_eq!(mismatch.take_value().ok().unwrap(), 0xd000);
    assert!(mismatch.released());

    let mut success = RawComReference::new(0xd000);
    assert_eq!(success.take_value().ok().unwrap(), 0xd000);
    assert!(success.released());
    assert!(matches!(success.address(), Err(RawComError::Gone)));
}

#[test]
fn managed_borrowed_raw_pointer_retains_owner_and_is_not_adoptable() {
    let pointer = DynComRawPointer::com_borrowed();
    assert_eq!(pointer.address_bits(Ok(0xe000)).ok().unwrap(), 0xe000);
    let mut value = pointer.to_value(Ok(0xe000)).ok().unwrap();
    assert_eq!(
        value.take_native_output_pointer(PointerProvenance::ComOutput),
        Err(OutputPointerError::OwnerBacked)
    );
    assert_eq!(value.slot(), SlotValue::RawPtr(0xe000));
}

#[test]
fn owned_call_values_retain_allocation_and_fail_after_release() {
    let mut memory = owned(0xa000, 16, 8);
    let pointer = DynComRawPointer::into_memory(&memory, 0).ok().unwrap();
    let value = pointer.to_value(memory.pointer_address(0).map_err(RawPointerError::Memory)).ok().unwrap();
    assert_eq!(value.slot(), SlotValue::RawPtr(0xa000));
    assert!(memory.validate_live().is_ok());

    assert!(memory.release());
    assert!(memory.released());
    let owner = memory.pointer_address(0).map_err(RawPointerError::Memory);
    assert!(pointer.address_bits(owner).is_err());
    assert_eq!(
        NativePointerOwner::RawMemory(memory).validate(OwnerObservation::Unobserved),
        Err(OwnerError::Memory(RawMemoryError::Released))
    );
}

#[test]
fn invocation_lease_defers_reentrant_release_deallocation() {
    let mut memory = owned(0xb000, 4, 4);
    assert!(memory.acquire_invocation_lease().is_ok());
    // The call releases the memory: the release is visible at once, but the
    // block stays allocated while the call holds its lease.
    assert!(!memory.release());
    assert!(memory.released());
    assert!(matches!(memory.range_address(0, 4), Err(RawMemoryError::Released)));
    assert!(matches!(memory.acquire_invocation_lease(), Err(RawMemoryError::Released)));
    // The block is freed once the call gives its lease back, and only once.
    assert!(memory.end_invocation_lease());
    assert!(!memory.release());

    let mut nested = owned(0xc000, 8, 8);
    assert!(nested.acquire_invocation_lease().is_ok());
    assert!(nested.acquire_invocation_lease().is_ok());
    assert!(!nested.end_invocation_lease());
    assert!(!nested.release());
    assert!(nested.end_invocation_lease());

    let mut external = RawAllocation::external(0xd000, 8, 8).ok().unwrap();
    assert!(!external.release());
}

// The bytes themselves are copied by the native memory code around the
// library; these tests check the ranges and integer conversions it relies on.
#[test]
fn primitive_and_byte_access_round_trips_native_endian_values() {
    let memory = owned(0x10000, 128, 16);
    for (offset, width) in [(0, 1), (1, 1), (2, 2), (4, 2), (6, 4), (10, 4), (14, 8), (22, 8), (30, 4), (34, 8), (48, 4)] {
        assert_eq!(memory.range_address(offset, width).ok().unwrap(), 0x10000 + offset);
    }
    assert_eq!(bigint_i64(&JsBigInt::from_i64(i64::MIN + 7)).ok().unwrap(), i64::MIN + 7);
    assert_eq!(bigint_u64(&JsBigInt::from_u64(u64::MAX - 7)).ok().unwrap(), u64::MAX - 7);
}

#[test]
fn pointer_width_and_pointer_slots_round_trip_without_transferring_ownership() {
    let memory = owned(0x20000, 4 * WIDTH, WIDTH);
    for slot in 0..3 {
        assert_eq!(memory.range_address(slot * WIDTH, WIDTH).ok().unwrap(), 0x20000 + slot * WIDTH);
    }
    assert_eq!(bigint_isize(&JsBigInt::from_i64(-1)).ok().unwrap(), -1);
    assert_eq!(bigint_usize(&JsBigInt::from_u64(usize::MAX as u64)).ok().unwrap(), usize::MAX);
    let external = DynComRawPointer::from_address(0x1234);
    let stored = external.address_bits(Err(RawPointerError::Consumed)).ok().unwrap();
    let read = DynComRawPointer::from_address(stored);
    assert_eq!(read.address_bits(Err(RawPointerError::Consumed)).ok().unwrap(), 0x1234);
    assert!(matches!(read.kind(), RawPointerKind::External { .. }));
}
