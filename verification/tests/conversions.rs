use napi::sys::TypedarrayType;
use dynwinrt_js::com_kinds::{
    default_safe_array_bound, ensure_progress_type_supported, propvariant_kind, safe_array_element_kind,
    safe_array_element_type_from_name, variant_kind, PropVariantType, SafeArrayElementType, TypeShape,
    VariantType,
};
use dynwinrt_js::guid::{parse_clsid, GuidError, WinGUID};
use dynwinrt_js::js_integer::{
    bigint_i64, bigint_u64, ensure_winappsdk_version, js_safe_i64, u64_as_i64, DynCom,
    IntegerRangeError, JsBigInt,
};
use dynwinrt_js::pointer_args::{
    ansi_string_route, ansi_string_storage, bigint_pointer_bits, byte_view_pointer,
    handle_bits_from_bytes, handle_value, pointer_route, safe_data_pointer_route, safe_string_route,
    wide_string_route, DynComUnsafe, HandleArgument, JsArgKind, PointerArgError, PointerRoute,
};
use dynwinrt_js::typed_buffer::{
    check_array_element_width, typed_array_element_size, typed_buffer_info, uint8_array_info,
    validate_ansi_string_bytes, validate_typed_buffer_owner, validate_uint8_array_owner,
    validate_wide_string_bytes, TypedArrayObservation, TypedBufferError, Uint8ArrayInfo,
};

#[test]
fn projected_buffer_allocation_length_is_bounded() {
    assert_eq!(DynCom::buffer_allocation_length(&JsBigInt::from_u64(1024u64)).unwrap(), 1024);
    assert!(DynCom::buffer_allocation_length(&JsBigInt::from_u64(i32::MAX as u64 + 1)).is_err());
    assert_eq!(DynCom::buffer_allocation_length(&JsBigInt::from_u64(i32::MAX as u64)).unwrap(), i32::MAX as u32);
    assert!(DynCom::buffer_allocation_length(&JsBigInt::from_i64(-1)).is_err());
}

#[test]
fn pointer_sized_values_use_the_current_target_width() {
    assert_eq!(DynCom::isize(&JsBigInt::from_i64(-1)).unwrap(), -1isize);
    assert_eq!(DynCom::usize(&JsBigInt::from_u64(1)).unwrap(), 1usize);
    assert_eq!(DynCom::isize(&JsBigInt::from_i64(isize::MIN as i64)).unwrap(), isize::MIN);
    assert_eq!(DynCom::usize(&JsBigInt::from_u64(usize::MAX as u64)).unwrap(), usize::MAX);
}

#[test]
fn bigint_conversions_follow_the_words() {
    assert_eq!(bigint_u64(&JsBigInt::from_u64(u64::MAX)).unwrap(), u64::MAX);
    assert_eq!(bigint_u64(&JsBigInt::from_i64(-1)), Err(IntegerRangeError::Unsigned64));
    assert_eq!(bigint_u64(&JsBigInt::from_words(false, vec![1, 2])), Err(IntegerRangeError::Unsigned64));
    assert_eq!(bigint_u64(&JsBigInt::from_words(false, vec![])).unwrap(), 0);
    assert_eq!(bigint_i64(&JsBigInt::from_i64(i64::MIN)).unwrap(), i64::MIN);
    assert_eq!(bigint_i64(&JsBigInt::from_i64(i64::MAX)).unwrap(), i64::MAX);
    assert_eq!(bigint_i64(&JsBigInt::from_i64(-42)).unwrap(), -42);
    assert_eq!(bigint_i64(&JsBigInt::from_u64(1u64 << 63)), Err(IntegerRangeError::Signed64));
    assert_eq!(bigint_i64(&JsBigInt::from_words(true, vec![(1u64 << 63) + 1])), Err(IntegerRangeError::Signed64));
    assert_eq!(DynCom::i64(&JsBigInt::from_i64(7)).unwrap(), 7);
    assert_eq!(DynCom::u64(&JsBigInt::from_u64(7)).unwrap(), 7);
    assert_eq!(DynCom::output_array_count(&JsBigInt::from_u64(2)).unwrap(), 2);
    assert!(DynCom::output_array_count(&JsBigInt::from_i64(-2)).is_err());
    let big = JsBigInt::from_words(true, vec![5]);
    assert!(big.sign_bit());
    assert_eq!(big.words(), &vec![5u64]);
}

#[test]
fn safe_integers_and_sdk_versions() {
    assert_eq!(js_safe_i64(9_007_199_254_740_991).unwrap(), 9_007_199_254_740_991);
    assert_eq!(js_safe_i64(-9_007_199_254_740_991).unwrap(), -9_007_199_254_740_991);
    assert_eq!(js_safe_i64(9_007_199_254_740_992), Err(IntegerRangeError::SafeInteger));
    assert_eq!(u64_as_i64(i64::MAX as u64).unwrap(), i64::MAX);
    assert_eq!(u64_as_i64(i64::MAX as u64 + 1), Err(IntegerRangeError::Signed64));
    assert!(ensure_winappsdk_version(1, 6, 1, 6).is_ok());
    let conflict = ensure_winappsdk_version(1, 6, 1, 7).unwrap_err();
    assert_eq!((conflict.initialized_major, conflict.initialized_minor), (1, 6));
    assert_eq!((conflict.requested_major, conflict.requested_minor), (1, 7));
}

#[test]
fn com_typed_buffer_widths_are_exact() {
    for typ in [TypedarrayType::int8_array, TypedarrayType::uint8_array, TypedarrayType::uint8_clamped_array] {
        assert_eq!(typed_array_element_size(typ as i32).unwrap(), 1);
    }
    for typ in [TypedarrayType::int16_array, TypedarrayType::uint16_array] {
        assert_eq!(typed_array_element_size(typ as i32).unwrap(), 2);
    }
    for typ in [TypedarrayType::int32_array, TypedarrayType::uint32_array, TypedarrayType::float32_array] {
        assert_eq!(typed_array_element_size(typ as i32).unwrap(), 4);
    }
    for typ in [TypedarrayType::float64_array, TypedarrayType::bigint64_array, TypedarrayType::biguint64_array] {
        assert_eq!(typed_array_element_size(typ as i32).unwrap(), 8);
    }
    assert!(typed_array_element_size(i32::MAX).is_err());
}

fn observation(typed_array_type: i32, length: usize, data: usize) -> TypedArrayObservation {
    TypedArrayObservation {
        is_typed_array: true,
        typed_array_type,
        length,
        data,
        backed_by_array_buffer: true,
        detached: false,
        is_buffer: false,
    }
}

#[test]
fn typed_buffers_lend_their_exact_extent() {
    let info = typed_buffer_info(observation(5, 3, 0x1000)).unwrap();
    assert_eq!(info.byte_length, 12);
    assert_eq!(info.pointer, 0x1000);
    assert_eq!(info.source_element_size, 4);
    let empty = typed_buffer_info(observation(5, 0, 0x1000)).unwrap();
    assert_eq!(empty.pointer, 0);
    assert_eq!(typed_buffer_info(TypedArrayObservation { is_typed_array: false, ..observation(1, 1, 1) }), Err(TypedBufferError::NotTypedArray));
    assert_eq!(typed_buffer_info(TypedArrayObservation { backed_by_array_buffer: false, ..observation(1, 1, 1) }), Err(TypedBufferError::SharedArrayBuffer));
    assert_eq!(typed_buffer_info(TypedArrayObservation { detached: true, ..observation(1, 1, 1) }), Err(TypedBufferError::Detached));
    assert_eq!(typed_buffer_info(observation(99, 1, 1)), Err(TypedBufferError::UnsupportedElementType));
    assert_eq!(typed_buffer_info(observation(8, usize::MAX, 1)), Err(TypedBufferError::ByteLengthOverflow));

    assert!(validate_typed_buffer_owner(info, Ok(info)).is_ok());
    let moved = typed_buffer_info(observation(5, 3, 0x2000)).unwrap();
    assert_eq!(validate_typed_buffer_owner(info, Ok(moved)), Err(TypedBufferError::StorageChanged));
    assert_eq!(validate_typed_buffer_owner(info, Err(TypedBufferError::Detached)), Err(TypedBufferError::Detached));
}

#[test]
fn byte_views_are_recognized_and_revalidated() {
    assert_eq!(uint8_array_info(observation(1, 4, 0x10)).unwrap(), Some(Uint8ArrayInfo { data: 0x10, length: 4 }));
    assert_eq!(uint8_array_info(observation(5, 4, 0x10)).unwrap(), None);
    assert_eq!(uint8_array_info(TypedArrayObservation { is_typed_array: false, ..observation(1, 1, 1) }).unwrap(), None);
    assert_eq!(uint8_array_info(TypedArrayObservation { detached: true, ..observation(1, 1, 1) }), Err(TypedBufferError::Detached));

    assert!(validate_uint8_array_owner(0x10, 4, 4, 0x10, false).is_ok());
    assert!(validate_uint8_array_owner(0, 0, 0, 0x99, false).is_ok());
    assert_eq!(validate_uint8_array_owner(0x10, 4, 4, 0x10, true), Err(TypedBufferError::Detached));
    assert_eq!(validate_uint8_array_owner(0x10, 4, 5, 0x10, false), Err(TypedBufferError::StorageChanged));
    assert_eq!(validate_uint8_array_owner(0x10, 4, 4, 0x20, false), Err(TypedBufferError::StorageChanged));
}

#[test]
fn string_pointer_buffers_require_matching_nul_terminators() {
    assert!(validate_wide_string_bytes(&vec![b'a', 0, 0, 0]).is_ok());
    assert!(validate_wide_string_bytes(&vec![b'a', 0]).is_err());
    assert!(validate_wide_string_bytes(&vec![b'a', 0, 0]).is_err());
    assert!(validate_ansi_string_bytes(&b"text\0".to_vec()).is_ok());
    assert!(validate_ansi_string_bytes(&b"text".to_vec()).is_err());
    assert!(validate_ansi_string_bytes(&Vec::new()).is_err());
    assert!(check_array_element_width(8, 4).is_ok());
    assert_eq!(check_array_element_width(9, 4), Err(TypedBufferError::InvalidElementWidth));
    assert_eq!(check_array_element_width(8, 0), Err(TypedBufferError::InvalidElementWidth));
}

#[test]
fn pointer_arguments_route_by_kind() {
    let view = Uint8ArrayInfo { data: 0x40, length: 2 };
    assert_eq!(pointer_route(JsArgKind::Null).unwrap(), PointerRoute::Null);
    assert_eq!(pointer_route(JsArgKind::BigInt).unwrap(), PointerRoute::BigIntBits);
    assert_eq!(pointer_route(JsArgKind::ByteView(view)).unwrap(), PointerRoute::ByteView(view));
    assert_eq!(pointer_route(JsArgKind::Wrapped), Err(PointerArgError::WrappedValue));
    assert_eq!(pointer_route(JsArgKind::String), Err(PointerArgError::Unexpected));
    assert_eq!(byte_view_pointer(view), 0x40);
    assert_eq!(byte_view_pointer(Uint8ArrayInfo { data: 0x40, length: 0 }), 0);
    assert_eq!(bigint_pointer_bits(&JsBigInt::from_u64(0x1234)).unwrap(), 0x1234);
    assert!(bigint_pointer_bits(&JsBigInt::from_i64(-1)).is_err());

    assert_eq!(safe_data_pointer_route(JsArgKind::Undefined, false), Err(PointerArgError::NullNotNullable));
    assert_eq!(safe_data_pointer_route(JsArgKind::Undefined, true).unwrap(), PointerRoute::Null);
    assert_eq!(safe_data_pointer_route(JsArgKind::Number, true), Err(PointerArgError::NotByteView));
}

#[test]
fn string_pointer_arguments_check_their_bytes() {
    let wide = vec![b'a', 0, 0, 0];
    let view = Uint8ArrayInfo { data: 0x40, length: 4 };
    assert_eq!(wide_string_route(JsArgKind::ByteView(view), &wide).unwrap(), PointerRoute::ByteView(view));
    let odd = Uint8ArrayInfo { data: 0x41, length: 4 };
    assert_eq!(wide_string_route(JsArgKind::ByteView(odd), &wide), Err(PointerArgError::WideStringMisaligned));
    assert_eq!(wide_string_route(JsArgKind::String, &Vec::new()).unwrap(), PointerRoute::StringStorage);
    let ansi = b"ab\0".to_vec();
    let ansi_view = Uint8ArrayInfo { data: 0x41, length: 3 };
    assert_eq!(ansi_string_route(JsArgKind::ByteView(ansi_view), &ansi).unwrap(), PointerRoute::ByteView(ansi_view));
    assert!(ansi_string_route(JsArgKind::ByteView(Uint8ArrayInfo { data: 0x41, length: 2 }), &b"ab".to_vec()).is_err());
    assert_eq!(safe_string_route(JsArgKind::Null, false, true, &Vec::new()), Err(PointerArgError::NullNotNullable));
    assert_eq!(safe_string_route(JsArgKind::Number, true, true, &Vec::new()), Err(PointerArgError::NotStringOrBytes));
    assert_eq!(ansi_string_storage("abc").unwrap(), vec![b'a', b'b', b'c', 0]);
    assert_eq!(ansi_string_storage("h\u{e9}"), Err(PointerArgError::NonAsciiString));
}

#[test]
fn handle_bytes_are_little_endian_pointer_bits() {
    let width = std::mem::size_of::<usize>();
    let mut bytes = vec![0u8; width];
    bytes[0] = 0x34;
    bytes[1] = 0x12;
    let view = Uint8ArrayInfo { data: 0x80, length: width };
    assert_eq!(handle_bits_from_bytes(view, &bytes).unwrap(), 0x1234);
    let all = vec![0xffu8; width];
    assert_eq!(handle_bits_from_bytes(view, &all).unwrap(), usize::MAX as u64);
    assert_eq!(
        handle_bits_from_bytes(Uint8ArrayInfo { data: 0x80, length: 3 }, &vec![1, 2, 3]),
        Err(PointerArgError::HandleByteLength)
    );
    assert_eq!(
        handle_bits_from_bytes(Uint8ArrayInfo { data: 0, length: width }, &bytes),
        Err(PointerArgError::HandleNullStorage)
    );
}

#[test]
fn handle_values_accept_pointer_sized_integers_and_exact_byte_views() {
    assert_eq!(handle_value(&HandleArgument::BigInt(JsBigInt::from_u64(0x1234))), Ok(0x1234));
    assert_eq!(
        handle_value(&HandleArgument::BigInt(JsBigInt::from_i64(-1))),
        Err(PointerArgError::Range(IntegerRangeError::PointerUnsigned))
    );
    assert_eq!(
        handle_value(&HandleArgument::BigInt(JsBigInt::from_words(false, vec![1, 1]))),
        Err(PointerArgError::Range(IntegerRangeError::PointerUnsigned))
    );
    assert_eq!(handle_value(&HandleArgument::Integer(42)), Ok(42));
    assert_eq!(handle_value(&HandleArgument::Integer(9_007_199_254_740_991)), Ok(9_007_199_254_740_991));
    assert_eq!(
        handle_value(&HandleArgument::Integer(9_007_199_254_740_992)),
        Err(PointerArgError::HandleNumberRange)
    );
    let width = std::mem::size_of::<usize>();
    let mut bytes = vec![0u8; width];
    bytes[0] = 0x78;
    bytes[1] = 0x56;
    let view = Uint8ArrayInfo { data: 0x80, length: width };
    assert_eq!(DynCom::handle_value(&HandleArgument::ByteView(view, bytes.clone())), Ok(0x5678));
    assert_eq!(DynComUnsafe::handle_value(&HandleArgument::ByteView(view, bytes)), Ok(0x5678));
    assert_eq!(
        handle_value(&HandleArgument::ByteView(Uint8ArrayInfo { data: 0x80, length: 2 }, vec![1, 2])),
        Err(PointerArgError::HandleByteLength)
    );
    assert_eq!(
        handle_value(&HandleArgument::ByteView(Uint8ArrayInfo { data: 0, length: width }, vec![])),
        Err(PointerArgError::HandleNullStorage)
    );
    assert_eq!(handle_value(&HandleArgument::Other), Err(PointerArgError::Unexpected));
}

#[test]
fn unsafe_entry_points_route_raw_addresses_and_strings() {
    assert_eq!(DynComUnsafe::pointer(JsArgKind::Number), Ok(PointerRoute::NumberBits));
    assert_eq!(DynComUnsafe::pointer(JsArgKind::Wrapped), Err(PointerArgError::WrappedValue));
    let view = Uint8ArrayInfo { data: 0x40, length: 4 };
    assert_eq!(
        DynComUnsafe::wide_string_pointer(JsArgKind::ByteView(view), &vec![b'a', 0, 0, 0]),
        Ok(PointerRoute::ByteView(view))
    );
    assert_eq!(DynComUnsafe::wide_string_pointer(JsArgKind::BigInt, &vec![]), Ok(PointerRoute::BigIntBits));
    let ansi = Uint8ArrayInfo { data: 0x41, length: 2 };
    assert_eq!(
        DynComUnsafe::ansi_string_pointer(JsArgKind::ByteView(ansi), &vec![b'a', 0]),
        Ok(PointerRoute::ByteView(ansi))
    );
    assert_eq!(
        DynComUnsafe::ansi_string_pointer(JsArgKind::ByteView(ansi), &vec![b'a', b'b']),
        Err(PointerArgError::Bytes(TypedBufferError::AnsiStringUnterminated))
    );
    assert_eq!(DynComUnsafe::ansi_string_pointer(JsArgKind::String, &vec![]), Ok(PointerRoute::StringStorage));
}

#[test]
fn guid_text_parses_and_formats_in_upper_case() {
    let guid = WinGUID::parse("00021401-0000-0000-c000-000000000046".to_string()).unwrap();
    assert_eq!(guid.to_u128(), 0x00021401_0000_0000_c000_000000000046);
    assert_eq!(guid.to_string(), "00021401-0000-0000-C000-000000000046");
    assert_eq!(WinGUID::parse(guid.to_string()).unwrap(), guid);
    let value = WinGUID::from_u128(0xa5caee9b_8708_49d1_8d36_67d25a8da00c);
    assert_eq!(value.to_string(), "A5CAEE9B-8708-49D1-8D36-67D25A8DA00C");
    assert_eq!(WinGUID::parse("not a guid".to_string()), Err(GuidError::InvalidGuid));
    assert_eq!(WinGUID::parse("00021401-0000-0000-c000-00000000004G".to_string()), Err(GuidError::InvalidGuid));
    assert_eq!(WinGUID::parse("00021401x0000-0000-c000-000000000046".to_string()), Err(GuidError::InvalidGuid));
    assert_eq!(parse_clsid("{00021401-0000-0000-c000-000000000046}"), Err(GuidError::InvalidClsid));
    assert!(parse_clsid("00021401-0000-0000-C000-000000000046").is_ok());
}

#[test]
fn automation_type_names() {
    assert_eq!(variant_kind(VariantType::Empty), "empty");
    assert_eq!(variant_kind(VariantType::SafeArray(SafeArrayElementType::I32)), "safeArray");
    assert_eq!(variant_kind(VariantType::UInt), "uint");
    assert_eq!(propvariant_kind(PropVariantType::FileTime), "filetime");
    assert_eq!(propvariant_kind(PropVariantType::Vector(SafeArrayElementType::U8)), "vector");
    for element in [
        SafeArrayElementType::I8,
        SafeArrayElementType::U8,
        SafeArrayElementType::I16,
        SafeArrayElementType::U16,
        SafeArrayElementType::I32,
        SafeArrayElementType::U32,
        SafeArrayElementType::I64,
        SafeArrayElementType::U64,
        SafeArrayElementType::F32,
        SafeArrayElementType::F64,
        SafeArrayElementType::Bool,
        SafeArrayElementType::Bstr,
        SafeArrayElementType::Unknown,
        SafeArrayElementType::Dispatch,
        SafeArrayElementType::Variant,
    ] {
        assert_eq!(safe_array_element_type_from_name(safe_array_element_kind(element)).unwrap(), element);
    }
    assert!(safe_array_element_type_from_name("string").is_err());
    assert!(safe_array_element_type_from_name("I8").is_err());
}

#[test]
fn progress_type_validation_allows_structs_and_rejects_unsupported_shapes() {
    assert!(ensure_progress_type_supported(TypeShape::Struct).is_ok());
    for unsupported in [TypeShape::Guid, TypeShape::ArrayOfIUnknown, TypeShape::Generic, TypeShape::OutValue, TypeShape::Array] {
        assert_eq!(ensure_progress_type_supported(unsupported).unwrap_err().0, unsupported);
    }
    for supported in [TypeShape::U64, TypeShape::HString, TypeShape::Interface, TypeShape::Enum, TypeShape::IAsyncOperation] {
        assert!(ensure_progress_type_supported(supported).is_ok());
    }
}

#[test]
fn safe_arrays_without_bounds_get_one_zero_based_dimension() {
    assert_eq!(default_safe_array_bound(0).unwrap(), (0, 0));
    assert_eq!(default_safe_array_bound(7).unwrap(), (0, 7));
    assert_eq!(default_safe_array_bound(u32::MAX as usize).unwrap(), (0, u32::MAX));
    assert!(default_safe_array_bound(u32::MAX as usize + 1).is_err());
}
