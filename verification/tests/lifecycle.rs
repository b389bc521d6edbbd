use dynwinrt_js::async_dispatch::{
    async_worker_count, AsyncDispatcher, CompletionDecision, DispatcherError, FallbackDecision,
    PromiseFlags, RouteDecision, SettleDecision,
};
use dynwinrt_js::id_set::IdSet;
use dynwinrt_js::js_integer::JsBigInt;
use dynwinrt_js::malloc::{finish_malloc_reallocation, DynComAllocation, MallocError};
use dynwinrt_js::native_output::{
    NativeOutputValue, OutputPointerError, PointerOutputKind, PointerProvenance, ReleaseAction,
    SlotValue,
};
use dynwinrt_js::native_values::{
    split_native_struct_array, DynComNativeStruct, DynComNativeStructArray, DynComRawDispatchState,
};
use dynwinrt_js::sink_callback::{
    com_object_factory, sink_callback_arguments, sink_callback_guard, sink_callback_hresult, ComObjectError,
    ComObjectFactory, SinkArgument, E_FAIL, RPC_E_WRONG_THREAD,
};
use dynwinrt_js::sink_callback::{
    check_sink_reply_array, sink_output_element, sink_reply_shape, CallbackContract,
    CallbackReturnKind, SinkReplyError, SinkReplyShape,
};
use dynwinrt_js::tsfn::{
    test_arm_call_pause, test_call_paused, test_cleanup_acquired, test_cleanup_waiting,
    begin_cleanup, test_enter_call, test_release_call_pause, TsfnCallDecision, TsfnError, TsfnLifecycle,
    TsfnTestHooks,
};
use dynwinrt_js::winui_loop::{
    finalizer_releases, set_winui_dispatcher_loop_active, winui_dispatcher_loop_active,
    winui_dispatcher_loop_exited, WinUiDispatcherLoop,
};

#[test]
fn tsfn_registry_releases_each_handle_once_and_closes_once() {
    let mut lifecycle: TsfnLifecycle<u32> = TsfnLifecycle::new();
    let mut hooks = TsfnTestHooks::new();
    assert!(lifecycle.register_created(1, 10).is_ok());
    assert!(lifecycle.register_created(2, 20).is_ok());
    assert!(lifecycle.register_created(3, 30).is_ok());
    assert_eq!(lifecycle.registered_handle_count(), 3);
    assert_eq!(lifecycle.release_handle(1), Some(10));
    assert_eq!(lifecycle.release_handle(1), None);
    assert_eq!(lifecycle.call_decision(false), TsfnCallDecision::Call);
    assert_eq!(lifecycle.call_decision(true), TsfnCallDecision::Closing);

    let ticket = begin_cleanup(&mut hooks);
    assert!(test_cleanup_waiting(&hooks) && !test_cleanup_acquired(&hooks));
    let aborted = lifecycle.close_and_abort(ticket, &mut hooks);
    assert_eq!(aborted.len(), 2);
    assert!(aborted.contains(&20) && aborted.contains(&30));
    assert!(lifecycle.is_closing());
    assert!(test_cleanup_waiting(&hooks) && test_cleanup_acquired(&hooks));
    let ticket = begin_cleanup(&mut hooks);
    assert!(lifecycle.close_and_abort(ticket, &mut hooks).is_empty());
    assert_eq!(lifecycle.register_created(4, 40), Err(TsfnError::EnvironmentClosing));
    assert_eq!(lifecycle.release_handle(2), None);
    assert_eq!(lifecycle.call_decision(false), TsfnCallDecision::Closing);
}

#[test]
fn tsfn_test_hooks_pause_and_release_calls() {
    let mut hooks = TsfnTestHooks::new();
    assert!(!test_enter_call(&mut hooks));
    test_arm_call_pause(&mut hooks);
    assert!(!test_call_paused(&hooks));
    assert!(test_enter_call(&mut hooks));
    assert!(test_call_paused(&hooks));
    test_release_call_pause(&mut hooks);
    assert!(!test_enter_call(&mut hooks));
    assert!(test_call_paused(&hooks));
    assert!(!test_cleanup_waiting(&hooks));
    assert!(!test_cleanup_acquired(&hooks));
}

#[test]
fn tsfn_cleanup_reports_waiting_before_it_acquires_the_lock() {
    let mut lifecycle: TsfnLifecycle<u32> = TsfnLifecycle::new();
    let mut hooks = TsfnTestHooks::new();
    assert!(lifecycle.register_created(7, 70).is_ok());
    test_arm_call_pause(&mut hooks);
    assert!(test_enter_call(&mut hooks));
    assert!(test_call_paused(&hooks));
    let ticket = begin_cleanup(&mut hooks);
    assert!(test_cleanup_waiting(&hooks));
    assert!(!test_cleanup_acquired(&hooks));
    test_release_call_pause(&mut hooks);
    assert_eq!(lifecycle.close_and_abort(ticket, &mut hooks), vec![70]);
    assert!(test_cleanup_waiting(&hooks) && test_cleanup_acquired(&hooks));
    assert!(test_call_paused(&hooks));
    test_arm_call_pause(&mut hooks);
    assert!(!test_call_paused(&hooks) && !test_cleanup_waiting(&hooks) && !test_cleanup_acquired(&hooks));
}

#[test]
fn promises_settle_once() {
    let mut promise = PromiseFlags::new();
    assert_eq!(promise.complete(true, false), CompletionDecision::Route);
    assert_eq!(promise.complete(true, false), CompletionDecision::Ignored);
    assert_eq!(promise.settle_on_js(true, false), SettleDecision::Resolve);
    assert_eq!(promise.settle_on_js(true, false), SettleDecision::AlreadySettled);
    assert_eq!(promise.complete(true, false), CompletionDecision::Ignored);

    let mut orphan = PromiseFlags::new();
    assert_eq!(orphan.complete(false, false), CompletionDecision::Abandoned);
    assert!(orphan.settled && !orphan.has_operation && !orphan.has_result);

    let mut empty = PromiseFlags::new();
    assert!(empty.take_operation());
    assert!(!empty.take_operation());
    assert_eq!(empty.settle_on_js(true, false), SettleDecision::ResultUnavailable);
}

#[test]
fn dispatcher_references_while_promises_are_pending_and_cleans_up_once() {
    let mut dispatcher = AsyncDispatcher::new();
    assert_eq!(dispatcher.register_promise(1).unwrap(), true);
    dispatcher.confirm_promise_reference(1, true);
    assert_eq!(dispatcher.register_promise(2).unwrap(), false);
    dispatcher.confirm_promise_reference(2, true);
    assert!(!dispatcher.finish_promise(1));
    assert!(dispatcher.finish_promise(2));

    assert_eq!(dispatcher.route_completion(3), RouteDecision::Fallback);
    assert_eq!(dispatcher.queue_registration_needed(), Ok(true));
    dispatcher.install_queue();
    assert_eq!(dispatcher.queue_registration_needed(), Ok(false));
    assert_eq!(dispatcher.route_completion(3), RouteDecision::Enqueue);
    assert!(dispatcher.run_queue_callback(3));
    assert!(dispatcher.run_queue_callback(3));
    assert_eq!(dispatcher.route_completion(4), RouteDecision::Enqueue);
    assert_eq!(dispatcher.register_promise(5).unwrap(), true);

    let (queued, registered) = dispatcher.cleanup_env().unwrap();
    assert_eq!(queued, vec![4]);
    assert_eq!(registered, vec![5]);
    assert!(dispatcher.is_closing());
    assert!(dispatcher.cleanup_env().is_none());
    assert_eq!(dispatcher.register_promise(6), Err(DispatcherError::PromiseWhileClosing));
    assert_eq!(dispatcher.route_completion(7), RouteDecision::Abandon);
    let mut late = PromiseFlags::new();
    assert_eq!(dispatcher.queue_fallback(&mut late), FallbackDecision::Abandon);
    assert!(late.settled);
}

#[test]
fn queue_fallback_is_requested_once() {
    let dispatcher = AsyncDispatcher::new();
    let mut promise = PromiseFlags::new();
    assert_eq!(dispatcher.queue_fallback(&mut promise), FallbackDecision::Call);
    assert_eq!(dispatcher.queue_fallback(&mut promise), FallbackDecision::AlreadyQueued);
}

#[test]
fn worker_count_is_capped() {
    assert_eq!(async_worker_count(Some(16)), 4);
    assert_eq!(async_worker_count(Some(3)), 3);
    assert_eq!(async_worker_count(Some(0)), 1);
    assert_eq!(async_worker_count(None), 2);
}

#[test]
fn id_sets_hold_each_id_once() {
    let mut ids = IdSet::new();
    assert!(ids.is_empty());
    ids.insert(7);
    ids.insert(7);
    ids.insert(9);
    assert_eq!(ids.len(), 2);
    assert!(ids.contains(9));
    assert!(ids.remove(7));
    assert!(!ids.remove(7));
    assert_eq!(ids.drain(), vec![9]);
    assert!(ids.is_empty());
}

#[test]
fn winui_loop_exit_makes_finalizers_leak() {
    let mut state = WinUiDispatcherLoop::new();
    assert!(!winui_dispatcher_loop_active(&state));
    assert!(!winui_dispatcher_loop_exited(&state));
    assert!(finalizer_releases(true, &state));
    assert!(!finalizer_releases(false, &state));
    set_winui_dispatcher_loop_active(&mut state, true);
    assert!(winui_dispatcher_loop_active(&state));
    assert!(!winui_dispatcher_loop_exited(&state));
    set_winui_dispatcher_loop_active(&mut state, false);
    assert!(winui_dispatcher_loop_exited(&state));
    assert!(!finalizer_releases(true, &state));
    set_winui_dispatcher_loop_active(&mut state, true);
    assert!(!winui_dispatcher_loop_exited(&state));
}

#[test]
fn consuming_native_output_pointer_clears_source_value() {
    let mut value = NativeOutputValue::from_com_result(SlotValue::RawPtr(0x1234), PointerOutputKind::Com);
    assert_eq!(value.take_native_output_pointer(PointerProvenance::ComOutput).unwrap(), 0x1234);
    assert_eq!(value.slot(), SlotValue::Null);
    assert!(value.take_native_output_pointer(PointerProvenance::ComOutput).is_err());
    assert_eq!(value.release_native_pointer_output(), None);
}

#[test]
fn borrowed_pointer_cannot_be_adopted() {
    let mut value = NativeOutputValue::with_borrowed_pointer(SlotValue::RawPtr(0x1234));
    let error = value.take_native_output_pointer(PointerProvenance::ComOutput).unwrap_err();
    assert_eq!(
        error,
        OutputPointerError::WrongProvenance { found: PointerProvenance::Borrowed, expected: PointerProvenance::ComOutput }
    );
    assert_eq!(value.slot(), SlotValue::RawPtr(0x1234));
    assert_eq!(value.release_native_pointer_output(), None);

    let mut owned = NativeOutputValue::with_pointer_owner(SlotValue::RawPtr(0x40));
    assert_eq!(owned.take_native_output_pointer(PointerProvenance::ComOutput), Err(OutputPointerError::OwnerBacked));
}

#[test]
fn borrowed_handle_outputs_convert_null_and_pointer_bits_without_adoption() {
    let null = NativeOutputValue::from_com_result(SlotValue::RawPtr(0), PointerOutputKind::Unspecified);
    assert_eq!(null.provenance(), PointerProvenance::UnclassifiedOutput);
    assert_eq!(null.pointer_bits().unwrap(), 0);
    let mut value = NativeOutputValue::from_com_result(SlotValue::RawPtr(0x1234), PointerOutputKind::Unspecified);
    assert_eq!(value.pointer_bits().unwrap(), 0x1234);
    let error = value.take_native_output_pointer(PointerProvenance::ComOutput).unwrap_err();
    assert!(matches!(error, OutputPointerError::WrongProvenance { found: PointerProvenance::UnclassifiedOutput, .. }));
    assert_eq!(value.slot(), SlotValue::RawPtr(0x1234));
}

#[test]
fn pointer_output_requires_the_exact_allocator_provenance() {
    let mut value = NativeOutputValue::from_com_result(SlotValue::RawPtr(0x5000), PointerOutputKind::CoTaskMem);
    let error = value.take_native_output_pointer(PointerProvenance::ComOutput).unwrap_err();
    assert!(matches!(error, OutputPointerError::WrongProvenance { found: PointerProvenance::CoTaskMemOutput, .. }));
    assert_eq!(value.slot(), SlotValue::RawPtr(0x5000));
    assert_eq!(value.release_native_pointer_output(), Some((0x5000, ReleaseAction::FreeCoTaskMem)));
    assert_eq!(value.release_native_pointer_output(), None);
}

#[test]
fn malloc_return_pointers_are_unclassified_outputs() {
    let mut value = NativeOutputValue::from_com_result(SlotValue::RawPtr(0x70), PointerOutputKind::Unclassified);
    assert_eq!(value.take_malloc_return_pointer().unwrap(), 0x70);
    let mut not_pointer = NativeOutputValue::from_com_result(SlotValue::Other, PointerOutputKind::Unclassified);
    assert!(not_pointer.take_malloc_return_pointer().is_err());
}

#[test]
fn malloc_inspection_pointer_borrows_without_allocator_validation() {
    let allocation = DynComAllocation::new(0xA110C, 0x9000);
    assert_eq!(allocation.inspection_pointer().unwrap(), 0x9000);
    assert!(!allocation.released());
}

#[test]
fn malloc_blocks_belong_to_their_allocator_and_are_freed_once() {
    let mut allocation = DynComAllocation::new(0xA110C, 0x9000);
    assert_eq!(allocation.borrowed_pointer(0xB0B), Err(MallocError::DifferentAllocator));
    assert_eq!(allocation.borrowed_pointer(0xA110C).unwrap(), 0x9000);
    assert_eq!(allocation.release(), Some((0xA110C, 0x9000)));
    assert_eq!(allocation.release(), None);
    assert!(allocation.released());
    assert_eq!(allocation.inspection_pointer(), Err(MallocError::Released));
    assert_eq!(allocation.take_pointer(0xA110C), Err(MallocError::Released));

    let mut foreign = DynComAllocation::new(0xA110C, 0x9100);
    assert_eq!(foreign.finalize(false), None);
    assert!(foreign.released());
}

#[test]
fn malloc_reallocation_moves_or_frees_the_block() {
    let mut moved = DynComAllocation::new(1, 0x100);
    let fresh = moved.finish_reallocation(1, &JsBigInt::from_u64(64), Ok(0x200)).unwrap().unwrap();
    assert!(moved.released());
    assert_eq!(fresh.inspection_pointer().unwrap(), 0x200);

    let mut freed = DynComAllocation::new(1, 0x100);
    assert!(freed.finish_reallocation(1, &JsBigInt::from_u64(0), Ok(0)).unwrap().is_none());
    assert!(freed.released());

    let mut failed = DynComAllocation::new(1, 0x100);
    assert!(failed.finish_reallocation(1, &JsBigInt::from_u64(64), Ok(0)).unwrap().is_none());
    assert!(!failed.released());
    assert_eq!(failed.finish_reallocation(1, &JsBigInt::from_i64(-1), Ok(0)).err(), Some(MallocError::InvalidSize));
    assert_eq!(failed.finish_reallocation(2, &JsBigInt::from_u64(1), Ok(0x300)).err(), Some(MallocError::DifferentAllocator));
    assert!(!failed.released());

    assert!(finish_malloc_reallocation(1, &JsBigInt::from_u64(8), Ok(0x400)).unwrap().is_some());
    assert!(finish_malloc_reallocation(1, &JsBigInt::from_u64(8), Ok(0)).unwrap().is_none());
    assert_eq!(
        finish_malloc_reallocation(1, &JsBigInt::from_u64(8), Err(MallocError::NotAPointerReturn)).err(),
        Some(MallocError::NotAPointerReturn)
    );
}

#[test]
fn native_struct_values_are_branded_and_split_evenly() {
    let descriptor = "Test.Pod".to_string();
    let value = DynComNativeStruct::new(descriptor.clone(), vec![1, 2, 3, 4, 5, 6, 7, 8]);
    assert_eq!(value.length(), 8);
    assert_eq!(value.bytes(), vec![1, 2, 3, 4, 5, 6, 7, 8]);
    assert!(value.check_brand(&descriptor).is_ok());
    assert!(value.check_brand(&"Test.Other".to_string()).is_err());

    let array = DynComNativeStructArray::new(descriptor.clone(), vec![0; 16]);
    assert_eq!(array.length(), 16);
    assert!(array.check_brand(&descriptor).is_ok());

    let parts = split_native_struct_array(&descriptor, &vec![1, 2, 3, 4, 5, 6, 7, 8], 4).unwrap();
    assert_eq!(parts.len(), 2);
    assert_eq!(parts[1].bytes(), vec![5, 6, 7, 8]);
    assert_eq!(parts[0].descriptor(), &descriptor);
    assert!(split_native_struct_array(&descriptor, &vec![0; 9], 4).is_err());
    assert!(split_native_struct_array(&descriptor, &vec![0; 8], 0).is_err());
}

#[test]
fn raw_dispatch_state_tracks_entry() {
    let mut state = DynComRawDispatchState::create_dispatch_state();
    assert!(!state.dispatch_entered());
    state.mark_entered();
    assert!(state.dispatch_entered());
    state.begin_call();
    assert!(!state.dispatch_entered());
}

#[test]
fn sink_replies_have_the_contract_shape() {
    let scalar = CallbackContract { return_kind: CallbackReturnKind::HResult, output_count: 0 };
    assert_eq!(sink_reply_shape(scalar), SinkReplyShape::HResultScalar);
    let void = CallbackContract { return_kind: CallbackReturnKind::Void, output_count: 0 };
    assert_eq!(sink_reply_shape(void), SinkReplyShape::NoReply);
    let value = CallbackContract { return_kind: CallbackReturnKind::Value, output_count: 0 };
    assert_eq!(sink_reply_shape(value), SinkReplyShape::ValueScalar);
    let outputs = CallbackContract { return_kind: CallbackReturnKind::HResult, output_count: 2 };
    assert_eq!(sink_reply_shape(outputs), SinkReplyShape::Array { prefix: 1 });
    assert_eq!(check_sink_reply_array(outputs, false, 3), Err(SinkReplyError::NotArray));
    assert_eq!(check_sink_reply_array(outputs, true, 2), Err(SinkReplyError::WrongLength));
    assert_eq!(check_sink_reply_array(outputs, true, 3).unwrap(), 1);
    assert_eq!(sink_output_element(outputs, 3, 1), 2);
    let void_outputs = CallbackContract { return_kind: CallbackReturnKind::Void, output_count: 2 };
    assert_eq!(check_sink_reply_array(void_outputs, true, 2).unwrap(), 0);
    assert_eq!(sink_output_element(void_outputs, 2, 0), 0);
}

#[test]
fn managed_com_object_address_is_not_exported() {
    let object = NativeOutputValue::from_com_result(SlotValue::Object, PointerOutputKind::Unspecified);
    assert_eq!(object.pointer_bits(), Err(OutputPointerError::ManagedObject));
    let other = NativeOutputValue::from_com_result(SlotValue::Other, PointerOutputKind::Unspecified);
    assert_eq!(other.pointer_bits(), Err(OutputPointerError::NotAPointer));
    assert_eq!(NativeOutputValue::from_com_result(SlotValue::Null, PointerOutputKind::Com).pointer_bits().unwrap(), 0);
}

#[test]
fn com_objects_need_an_interface_and_sinks_refuse_foreign_threads() {
    assert_eq!(com_object_factory(0, true), Err(ComObjectError::NoInterfaces));
    assert_eq!(com_object_factory(0, false), Err(ComObjectError::NoInterfaces));
    assert_eq!(com_object_factory(2, true), Ok(ComObjectFactory::Object));
    assert_eq!(com_object_factory(2, false), Ok(ComObjectFactory::Sink));
    assert_eq!(RPC_E_WRONG_THREAD, 0x8001010Eu32 as i32);
    assert_eq!(E_FAIL, 0x80004005u32 as i32);
    assert_eq!(sink_callback_guard(false), Some(RPC_E_WRONG_THREAD));
    assert_eq!(sink_callback_guard(true), None);
    assert_eq!(sink_callback_hresult(None), E_FAIL);
    assert_eq!(sink_callback_hresult(Some(1)), 1);
    assert_eq!(
        sink_callback_arguments(true, 2),
        vec![SinkArgument::Iid, SinkArgument::Slot, SinkArgument::Value(0), SinkArgument::Value(1)]
    );
    assert_eq!(sink_callback_arguments(false, 1), vec![SinkArgument::Slot, SinkArgument::Value(0)]);
}

#[test]
fn takes_and_clears_cotaskmem_wide_string() {
    let mut value = NativeOutputValue::from_com_result(SlotValue::RawPtr(0x5000), PointerOutputKind::CoTaskMem);
    assert_eq!(value.take_native_output_pointer(PointerProvenance::CoTaskMemOutput), Ok(0x5000));
    assert_eq!(value.slot(), SlotValue::Null);
    assert_eq!(value.release_native_pointer_output(), None);
}

#[test]
fn a_confirmed_reference_counts_even_after_its_promise_finished() {
    let mut dispatcher = AsyncDispatcher::new();
    assert_eq!(dispatcher.register_promise(1).unwrap(), true);
    assert!(!dispatcher.finish_promise(1));
    dispatcher.confirm_promise_reference(1, true);
    assert_eq!(dispatcher.register_promise(2).unwrap(), true);
    assert!(dispatcher.finish_promise(2));
}
