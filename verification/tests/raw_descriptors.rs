use dynwinrt_js::json::{JsonMember, JsonValue};
use dynwinrt_js::native_descriptor::{
    native_struct_layout, native_union_layout, raw_struct_layout, raw_union_layout, NativeDescriptorError,
    RawAggregateLayoutError,
};
use dynwinrt_js::raw_layout::{
    raw_host_architecture, validate_raw_aggregate_descriptor_limits, validate_raw_qualified_name,
    HostArchitecture, RawDescriptorError, RawDescriptorKind, RAW_MAX_AGGREGATE_BYTE_SIZE,
    RAW_MAX_FIXED_FIELD_EXPANSION, RAW_MAX_LIBFFI_ELEMENTS,
};
use dynwinrt_js::raw_schema::{
    is_explicitly_unsupported_raw_key, is_unsupported_marker, validate_exact_raw_keys,
    validate_raw_by_value_descriptor, validate_raw_by_value_schema,
};
use dynwinrt_js::raw_layout::SchemaContext;
use dynwinrt_js::native_values::{split_native_struct_array, DynComNativeStruct, NativeStructValueError};

const HOST: HostArchitecture = HostArchitecture::X64;

fn to_json(value: &serde_json::Value) -> JsonValue {
    match value {
        serde_json::Value::Null => JsonValue::Null,
        serde_json::Value::Bool(b) => JsonValue::Bool(*b),
        serde_json::Value::Number(n) => {
            if let Some(u) = n.as_u64() {
                JsonValue::UInt(u)
            } else if let Some(i) = n.as_i64() {
                JsonValue::NegInt(i)
            } else {
                JsonValue::OtherNumber
            }
        }
        serde_json::Value::String(s) => JsonValue::Str(s.clone()),
        serde_json::Value::Array(items) => JsonValue::Array(items.iter().map(to_json).collect()),
        serde_json::Value::Object(members) => JsonValue::Object(
            members
                .iter()
                .map(|(key, value)| JsonMember { key: key.clone(), value: to_json(value) })
                .collect(),
        ),
    }
}

fn parse(text: &str) -> serde_json::Value {
    serde_json::from_str(text).unwrap()
}

fn raw_descriptor(name: &str, layout: &str) -> serde_json::Value {
    parse(&format!(
        r#"{{"name":"{name}","x86":{layout},"x64":{layout},"arm64":{layout}}}"#
    ))
}

/// What constructing a raw struct layout from a descriptor checks.
fn struct_layout(descriptor: &serde_json::Value) -> Result<(), String> {
    let root = to_json(descriptor);
    validate_raw_aggregate_descriptor_limits(&root, RawDescriptorKind::Struct, HOST)
        .map_err(|e| describe(&e))?;
    let layout = native_struct_layout(&root, HOST).map_err(|_| "native layout".to_string())?;
    validate_raw_qualified_name(layout.layout.name.as_str()).map_err(|e| describe(&e))?;
    Ok(())
}

/// What constructing a raw union layout from a descriptor checks.
fn union_layout(descriptor: &serde_json::Value) -> Result<(), String> {
    let root = to_json(descriptor);
    validate_raw_aggregate_descriptor_limits(&root, RawDescriptorKind::Union, HOST)
        .map_err(|e| describe(&e))?;
    let layout = native_union_layout(&root, HOST).map_err(|_| "native layout".to_string())?;
    validate_raw_qualified_name(layout.name.as_str()).map_err(|e| describe(&e))?;
    Ok(())
}

fn describe(error: &RawDescriptorError) -> String {
    match error {
        RawDescriptorError::LibffiLimit(_) => "libffi elements".into(),
        RawDescriptorError::ExpansionLimit(_) => "fixed fields".into(),
        RawDescriptorError::FieldCountLimit(_) | RawDescriptorError::FieldCountRange(_) => "field count".into(),
        RawDescriptorError::SizeLimit(_, _) => "size limit".into(),
        RawDescriptorError::RecursiveCycle(_) => "recursive cycle".into(),
        RawDescriptorError::NotQualifiedName => "qualified".into(),
        RawDescriptorError::FieldsOverlap(_) => "fields overlap".into(),
        RawDescriptorError::UnknownKey(_, _) => "unknown key".into(),
        RawDescriptorError::UnsupportedMarker(_, _) => "unsupported ABI marker".into(),
        RawDescriptorError::SchemaUnsupportedKind(_) => "Unsupported raw by-value".into(),
        _ => "other".into(),
    }
}

const INNER: &str = r#"{"size":4,"alignment":2,"fields":[{"name":"values","offset":0,"count":2,"type":{"kind":"u16"}}]}"#;

fn raw_aggregate_descriptor() -> serde_json::Value {
    let x86 = format!(
        r#"{{"size":28,"alignment":4,"fields":[{{"name":"tag","offset":0,"count":1,"type":{{"kind":"u32"}}}},{{"name":"inner","offset":4,"count":1,"type":{{"kind":"struct","name":"Tests.RawInner","layout":{INNER}}}}},{{"name":"pointer","offset":8,"count":1,"type":{{"kind":"pointer"}}}},{{"name":"guid","offset":12,"count":1,"type":{{"kind":"guid"}}}}]}}"#
    );
    let x64 = format!(
        r#"{{"size":32,"alignment":8,"fields":[{{"name":"tag","offset":0,"count":1,"type":{{"kind":"u32"}}}},{{"name":"inner","offset":4,"count":1,"type":{{"kind":"struct","name":"Tests.RawInner","layout":{INNER}}}}},{{"name":"pointer","offset":8,"count":1,"type":{{"kind":"pointer"}}}},{{"name":"guid","offset":16,"count":1,"type":{{"kind":"guid"}}}}]}}"#
    );
    parse(&format!(r#"{{"name":"Tests.RawAggregate","x86":{x86},"x64":{x64},"arm64":{x64}}}"#))
}

fn raw_union_descriptor() -> serde_json::Value {
    raw_descriptor(
        "Tests.RawUnion",
        &format!(
            r#"{{"size":8,"alignment":8,"complete":true,"fields":[{{"name":"integer","count":1,"type":{{"kind":"u64"}}}},{{"name":"inner","count":1,"type":{{"kind":"struct","name":"Tests.RawUnionInner","layout":{INNER}}}}}]}}"#
        ),
    )
}

fn cyclic_descriptor() -> serde_json::Value {
    raw_descriptor(
        "Tests.Cycle",
        r#"{"size":4,"alignment":4,"fields":[{"name":"self","offset":0,"count":1,"type":{"kind":"struct","name":"Tests.Cycle","layout":{"size":4,"alignment":4,"fields":[{"name":"value","offset":0,"count":1,"type":{"kind":"u32"}}]}}}]}"#,
    )
}

#[test]
fn raw_aggregate_descriptors_validate_identity_cycles_and_union_limits() {
    assert!(struct_layout(&raw_aggregate_descriptor()).is_ok());
    let other = parse(&raw_aggregate_descriptor().to_string().replace("Tests.RawAggregate", "Tests.OtherAggregate"));
    assert!(struct_layout(&other).is_ok());
    assert_eq!(struct_layout(&cyclic_descriptor()), Err("recursive cycle".to_string()));
    let unqualified = parse(&raw_aggregate_descriptor().to_string().replace("Tests.RawAggregate", "RawAggregate"));
    assert_eq!(struct_layout(&unqualified), Err("qualified".to_string()));
    let mut overlapping = raw_aggregate_descriptor();
    for architecture in ["x86", "x64", "arm64"] {
        overlapping[architecture]["fields"][1]["offset"] = serde_json::Value::from(0);
    }
    assert_eq!(struct_layout(&overlapping), Err("fields overlap".to_string()));

    let union = raw_union_descriptor();
    assert!(union_layout(&union).is_ok());
    let root = to_json(&union);
    let layout = native_union_layout(&root, HOST).unwrap();
    assert_eq!(layout.name, "Tests.RawUnion");
    assert!(validate_raw_by_value_descriptor(&root, RawDescriptorKind::Union, HostArchitecture::X64).is_ok());
    assert!(matches!(
        validate_raw_by_value_descriptor(&root, RawDescriptorKind::Union, HostArchitecture::Arm64),
        Err(RawDescriptorError::Arm64ByValueUnion)
    ));
}

fn strict_schema_descriptor() -> serde_json::Value {
    let mut exact = raw_descriptor(
        "Tests.StrictSchemaStruct",
        r#"{"size":16,"alignment":8,"fields":[{"name":"size","offset":0,"count":1,"type":{"kind":"u32"}},{"name":"value","offset":8,"count":1,"type":{"kind":"union","name":"Tests.StrictSchemaUnion","layout":{"size":8,"alignment":8,"complete":true,"fields":[{"name":"integer","count":1,"type":{"kind":"u64"}}]}}}]}"#,
    );
    exact["initializers"] = parse(r#"[{"kind":"sizeOfLayout","field":"size"}]"#);
    exact
}

#[test]
fn raw_by_value_schema_rejects_unsupported_and_unknown_recursive_keys() {
    let exact = strict_schema_descriptor();
    assert!(validate_raw_by_value_schema(&to_json(&exact), RawDescriptorKind::Struct).is_ok());
    assert!(struct_layout(&exact).is_ok());
    assert!(validate_raw_by_value_descriptor(&to_json(&exact), RawDescriptorKind::Struct, HostArchitecture::X64).is_ok());
    assert!(validate_raw_by_value_descriptor(&to_json(&exact), RawDescriptorKind::Struct, HostArchitecture::Arm64).is_err());

    let assert_rejected = |descriptor: serde_json::Value| {
        assert!(struct_layout(&descriptor).is_ok());
        let error = validate_raw_by_value_descriptor(&to_json(&descriptor), RawDescriptorKind::Struct, HOST)
            .err()
            .unwrap();
        let reason = describe(&error);
        assert!(
            reason.contains("unknown key")
                || reason.contains("unsupported ABI marker")
                || reason.contains("Unsupported raw by-value"),
            "{reason}"
        );
    };
    let host = raw_host_architecture(HOST);

    for key in [
        "packed",
        "pack",
        "opaque",
        "nontrivial",
        "vector",
        "HVA",
        "flexibleArray",
        "overAligned",
        "customAlignment",
        "selectedMemberOnly",
        "incomplete",
    ] {
        let mut invalid = exact.clone();
        invalid[host][key] = serde_json::Value::Bool(true);
        assert_rejected(invalid);
    }
    let mut bitfield = exact.clone();
    bitfield[host]["fields"][0]["bitWidth"] = serde_json::Value::from(3);
    assert_rejected(bitfield);

    let mut unknown_root = exact.clone();
    unknown_root["unknownRoot"] = serde_json::Value::Bool(true);
    assert_rejected(unknown_root);
    let mut unknown_layout = exact.clone();
    unknown_layout[host]["unknownLayout"] = serde_json::Value::Bool(true);
    assert_rejected(unknown_layout);
    let mut unknown_field = exact.clone();
    unknown_field[host]["fields"][1]["unknownField"] = serde_json::Value::Bool(true);
    assert_rejected(unknown_field);
    let mut unknown_type = exact.clone();
    unknown_type[host]["fields"][1]["type"]["unknownType"] = serde_json::Value::Bool(true);
    assert_rejected(unknown_type);
    let mut unknown_nested_layout = exact.clone();
    unknown_nested_layout[host]["fields"][1]["type"]["layout"]["unknownNestedLayout"] =
        serde_json::Value::Bool(true);
    assert_rejected(unknown_nested_layout);
    let mut unknown_nested_field = exact.clone();
    unknown_nested_field[host]["fields"][1]["type"]["layout"]["fields"][0]["unknownNestedField"] =
        serde_json::Value::Bool(true);
    assert_rejected(unknown_nested_field);
    let mut unknown_nested_type = exact.clone();
    unknown_nested_type[host]["fields"][1]["type"]["layout"]["fields"][0]["type"]["unknownNestedType"] =
        serde_json::Value::Bool(true);
    assert_rejected(unknown_nested_type);
    let mut unknown_initializer = exact;
    unknown_initializer["initializers"][0]["unknownInitializer"] = serde_json::Value::Bool(true);
    assert_rejected(unknown_initializer);
}

#[test]
fn raw_aggregate_limits_reject_size_padding_nested_and_count_expansion() {
    let oversized = raw_descriptor(
        "Tests.Oversized",
        &format!(
            r#"{{"size":{},"alignment":1,"fields":[{{"name":"value","offset":0,"count":1,"type":{{"kind":"u8"}}}}]}}"#,
            RAW_MAX_AGGREGATE_BYTE_SIZE + 1
        ),
    );
    assert!(struct_layout(&oversized).is_err());

    let padding = raw_descriptor(
        "Tests.PaddingExpansion",
        &format!(
            r#"{{"size":{},"alignment":4,"fields":[{{"name":"value","offset":{},"count":1,"type":{{"kind":"u32"}}}}]}}"#,
            RAW_MAX_LIBFFI_ELEMENTS + 4,
            RAW_MAX_LIBFFI_ELEMENTS
        ),
    );
    let error = struct_layout(&padding).err().unwrap();
    assert!(error.contains("libffi elements"));

    let nested_layout = r#"{"size":256,"alignment":1,"fields":[{"name":"bytes","offset":0,"count":256,"type":{"kind":"u8"}}]}"#;
    let nested = raw_descriptor(
        "Tests.NestedExpansion",
        &format!(
            r#"{{"size":{},"alignment":1,"fields":[{{"name":"items","offset":0,"count":257,"type":{{"kind":"struct","name":"Tests.NestedExpansionItem","layout":{nested_layout}}}}}]}}"#,
            256 * 257
        ),
    );
    let error = struct_layout(&nested).err().unwrap();
    assert!(error.contains("fixed fields"));

    let fixed_count = raw_descriptor(
        "Tests.FixedCountExpansion",
        &format!(
            r#"{{"size":{},"alignment":1,"fields":[{{"name":"bytes","offset":0,"count":{},"type":{{"kind":"u8"}}}}]}}"#,
            RAW_MAX_FIXED_FIELD_EXPANSION + 1,
            RAW_MAX_FIXED_FIELD_EXPANSION + 1
        ),
    );
    let error = struct_layout(&fixed_count).err().unwrap();
    assert!(error.contains("field count"));

    let oversized_union = raw_descriptor(
        "Tests.OversizedUnion",
        &format!(
            r#"{{"size":{},"alignment":1,"fields":[{{"name":"value","count":1,"type":{{"kind":"u8"}}}}]}}"#,
            RAW_MAX_AGGREGATE_BYTE_SIZE + 1
        ),
    );
    assert!(union_layout(&oversized_union).is_err());
    assert!(union_layout(&raw_union_descriptor()).is_ok());
}

#[test]
fn descriptor_limits_accept_the_largest_sizes() {
    let largest = raw_descriptor(
        "Tests.Largest",
        &format!(
            r#"{{"size":{},"alignment":1,"fields":[{{"name":"bytes","offset":0,"count":{},"type":{{"kind":"u8"}}}}]}}"#,
            RAW_MAX_FIXED_FIELD_EXPANSION, RAW_MAX_FIXED_FIELD_EXPANSION
        ),
    );
    assert!(struct_layout(&largest).is_ok());
}

#[test]
fn descriptor_roots_need_a_name_and_the_host_layout() {
    let root = to_json(&parse(r#"{"x64":{"size":4,"alignment":4,"fields":[]}}"#));
    assert!(matches!(
        validate_raw_aggregate_descriptor_limits(&root, RawDescriptorKind::Struct, HOST),
        Err(RawDescriptorError::MissingName)
    ));
    let root = to_json(&parse(r#"{"name":"Tests.X","x86":{"size":4,"alignment":4,"fields":[]}}"#));
    assert!(matches!(
        validate_raw_aggregate_descriptor_limits(&root, RawDescriptorKind::Struct, HOST),
        Err(RawDescriptorError::MissingArchitecture(HostArchitecture::X64))
    ));
    assert!(matches!(
        native_struct_layout(&root, HostArchitecture::Unsupported),
        Err(NativeDescriptorError::UnsupportedArchitecture(RawDescriptorKind::Struct))
    ));
}

#[test]
fn qualified_names_need_two_trimmed_segments() {
    assert!(validate_raw_qualified_name("Tests.RawAggregate").is_ok());
    assert!(validate_raw_qualified_name("A.B.C").is_ok());
    assert!(validate_raw_qualified_name("RawAggregate").is_err());
    assert!(validate_raw_qualified_name("Tests.").is_err());
    assert!(validate_raw_qualified_name(".Tests").is_err());
    assert!(validate_raw_qualified_name("Tests. Raw").is_err());
    assert!(validate_raw_qualified_name("Tests..Raw").is_err());
    assert!(validate_raw_qualified_name("").is_err());
}

#[test]
fn explicitly_unsupported_keys_are_recognized_in_any_case() {
    assert!(is_explicitly_unsupported_raw_key("packed"));
    assert!(is_explicitly_unsupported_raw_key("Packed"));
    assert!(is_explicitly_unsupported_raw_key("HVA"));
    assert!(is_explicitly_unsupported_raw_key("bitWidth"));
    assert!(is_explicitly_unsupported_raw_key("bit_width"));
    assert!(is_explicitly_unsupported_raw_key("flexible-array"));
    assert!(!is_explicitly_unsupported_raw_key("size"));
    assert!(!is_explicitly_unsupported_raw_key("unknownRoot"));
}

#[test]
fn unsupported_key_verdict_ignores_separators_and_ascii_case() {
    for key in ["bit_width", "Bit-Width", "BITWIDTH", "bitWidth", "_b-i_t-w_i-d_t-h_"] {
        assert!(is_explicitly_unsupported_raw_key(key), "{key}");
    }
    assert!(!is_explicitly_unsupported_raw_key("un_known"));
    assert!(!is_explicitly_unsupported_raw_key("unknown"));
    assert!(!is_explicitly_unsupported_raw_key("p\u{e4}cked"));
}

#[test]
fn host_architecture_keys() {
    assert_eq!(raw_host_architecture(HostArchitecture::X86), "x86");
    assert_eq!(raw_host_architecture(HostArchitecture::X64), "x64");
    assert_eq!(raw_host_architecture(HostArchitecture::Arm64), "arm64");
    assert_eq!(raw_host_architecture(HostArchitecture::Unsupported), "unsupported");
}

#[test]
fn native_struct_layout_reads_fields_and_initializers() {
    let descriptor = parse(
        r#"{"name":"Test.Initialized","initializers":[{"kind":"sizeOfLayout","field":"size"}],"x64":{"size":8,"alignment":4,"fields":[{"name":"size","offset":0,"count":1,"type":{"kind":"u32"}},{"name":"value","offset":4,"count":1,"type":{"kind":"u32"}}]}}"#,
    );
    let layout = native_struct_layout(&to_json(&descriptor), HOST).unwrap();
    assert_eq!(layout.layout.name, "Test.Initialized");
    assert_eq!(layout.layout.size, 8);
    assert_eq!(layout.layout.alignment, 4);
    assert_eq!(layout.layout.fields.len(), 2);
    assert_eq!(layout.layout.fields[1].offset, 4);
    assert_eq!(layout.size_field_initializers, vec!["size".to_string()]);

    let mut bad = descriptor.clone();
    bad["initializers"][0]["kind"] = serde_json::Value::from("other");
    assert!(matches!(
        native_struct_layout(&to_json(&bad), HOST),
        Err(NativeDescriptorError::UnsupportedInitializer(_))
    ));
}

#[test]
fn native_layouts_refuse_fields_past_the_size_and_unknown_initializer_fields() {
    let past = parse(
        r#"{"name":"Test.Past","x64":{"size":8,"alignment":4,"fields":[{"name":"first","offset":0,"count":1,"type":{"kind":"u32"}},{"name":"second","offset":6,"count":1,"type":{"kind":"u32"}}]}}"#,
    );
    assert!(matches!(
        native_struct_layout(&to_json(&past), HOST),
        Err(NativeDescriptorError::FieldExceedsSize(RawDescriptorKind::Struct, name)) if name == "second"
    ));
    let exact = parse(
        r#"{"name":"Test.Exact","x64":{"size":8,"alignment":4,"fields":[{"name":"pair","offset":4,"count":2,"type":{"kind":"u16"}},{"name":"g","offset":0,"count":0,"type":{"kind":"guid"}}]}}"#,
    );
    assert!(native_struct_layout(&to_json(&exact), HOST).is_ok());
    let unnamed = parse(
        r#"{"name":"Test.Initialized","initializers":[{"kind":"sizeOfLayout","field":"cbSize"}],"x64":{"size":8,"alignment":4,"fields":[{"name":"size","offset":0,"count":1,"type":{"kind":"u32"}}]}}"#,
    );
    assert!(matches!(
        native_struct_layout(&to_json(&unnamed), HOST),
        Err(NativeDescriptorError::InitializerUnknownField(name)) if name == "cbSize"
    ));
    let wide_union = parse(
        r#"{"name":"Test.Union","x64":{"size":4,"alignment":4,"fields":[{"name":"integer","count":1,"type":{"kind":"u64"}}]}}"#,
    );
    assert!(matches!(
        native_union_layout(&to_json(&wide_union), HOST),
        Err(NativeDescriptorError::FieldExceedsSize(RawDescriptorKind::Union, name)) if name == "integer"
    ));
}

#[test]
fn normalized_markers_and_exact_keys() {
    let chars = |text: &str| text.chars().collect::<Vec<char>>();
    assert!(is_unsupported_marker(&chars("packed")));
    assert!(is_unsupported_marker(&chars("selectedmemberonly")));
    assert!(!is_unsupported_marker(&chars("Packed")));
    assert!(!is_unsupported_marker(&chars("size")));

    let object = to_json(&parse(r#"{"size":1,"alignment":1}"#));
    assert!(validate_exact_raw_keys(&object, &["size", "alignment", "fields"], SchemaContext::StructLayout).is_ok());
    assert!(matches!(
        validate_exact_raw_keys(&object, &["size"], SchemaContext::StructLayout),
        Err(RawDescriptorError::UnknownKey(SchemaContext::StructLayout, key)) if key == "alignment"
    ));
    let marked = to_json(&parse(r#"{"Pack":1}"#));
    assert!(matches!(
        validate_exact_raw_keys(&marked, &["size"], SchemaContext::StructLayout),
        Err(RawDescriptorError::UnsupportedMarker(SchemaContext::StructLayout, key)) if key == "Pack"
    ));
    assert!(matches!(
        validate_exact_raw_keys(&JsonValue::Null, &["size"], SchemaContext::RootDescriptor),
        Err(RawDescriptorError::NotObject(SchemaContext::RootDescriptor))
    ));
}

#[test]
fn raw_layouts_check_limits_then_layout_then_qualified_name() {
    let good = parse(
        r#"{"name":"Tests.Raw.Pair","x64":{"size":8,"alignment":4,"fields":[{"name":"a","offset":0,"count":1,"type":{"kind":"u32"}},{"name":"b","offset":4,"count":1,"type":{"kind":"u32"}}]}}"#,
    );
    let layout = raw_struct_layout(&to_json(&good), HOST).unwrap();
    assert_eq!(layout.layout.name, "Tests.Raw.Pair");
    assert_eq!(layout.layout.size, 8);

    let mut unqualified = good.clone();
    unqualified["name"] = serde_json::Value::from("Pair");
    assert!(matches!(raw_struct_layout(&to_json(&unqualified), HOST), Err(RawAggregateLayoutError::Limits(_))));

    let mut missing = good.clone();
    missing.as_object_mut().unwrap().remove("name");
    assert!(matches!(raw_struct_layout(&to_json(&missing), HOST), Err(RawAggregateLayoutError::Limits(_))));

    let union = parse(
        r#"{"name":"Tests.Raw.Either","x64":{"size":8,"alignment":8,"fields":[{"name":"integer","count":1,"type":{"kind":"u64"}},{"name":"pointer","count":1,"type":{"kind":"pointer"}}]}}"#,
    );
    let layout = raw_union_layout(&to_json(&union), HOST).unwrap();
    assert_eq!(layout.fields.len(), 2);
    let mut narrow = union.clone();
    narrow["x64"]["size"] = serde_json::Value::from(4);
    assert!(matches!(
        raw_union_layout(&to_json(&narrow), HOST),
        Err(RawAggregateLayoutError::Layout(NativeDescriptorError::FieldExceedsSize(RawDescriptorKind::Union, _)))
            | Err(RawAggregateLayoutError::Limits(_))
    ));
}

const TEST_POD_DESCRIPTOR: &str = r#"{"name":"Test.Pod","x86":{"size":8,"alignment":4,"fields":[{"name":"first","offset":0,"count":1,"type":{"kind":"u32"}},{"name":"second","offset":4,"count":2,"type":{"kind":"u16"}}]},"x64":{"size":8,"alignment":4,"fields":[{"name":"first","offset":0,"count":1,"type":{"kind":"u32"}},{"name":"second","offset":4,"count":2,"type":{"kind":"u16"}}]},"arm64":{"size":8,"alignment":4,"fields":[{"name":"first","offset":0,"count":1,"type":{"kind":"u32"}},{"name":"second","offset":4,"count":2,"type":{"kind":"u16"}}]}}"#;
const TEST_INITIALIZED_POD_DESCRIPTOR: &str = r#"{"name":"Test.Initialized","initializers":[{"kind":"sizeOfLayout","field":"size"}],"x86":{"size":8,"alignment":4,"fields":[{"name":"size","offset":0,"count":1,"type":{"kind":"u32"}},{"name":"value","offset":4,"count":1,"type":{"kind":"u32"}}]},"x64":{"size":8,"alignment":4,"fields":[{"name":"size","offset":0,"count":1,"type":{"kind":"u32"}},{"name":"value","offset":4,"count":1,"type":{"kind":"u32"}}]},"arm64":{"size":8,"alignment":4,"fields":[{"name":"size","offset":0,"count":1,"type":{"kind":"u32"}},{"name":"value","offset":4,"count":1,"type":{"kind":"u32"}}]}}"#;

#[test]
fn native_struct_helpers_validate_identity_size_and_zero_initialization() {
    let layout = native_struct_layout(&to_json(&parse(TEST_POD_DESCRIPTOR)), HOST).unwrap();
    assert_eq!(layout.layout.name, "Test.Pod");
    assert_eq!(layout.layout.size, 8);

    let descriptor = TEST_POD_DESCRIPTOR.to_string();
    let array = split_native_struct_array(&descriptor, &vec![0; 16], layout.layout.size).unwrap();
    assert_eq!(array.len(), 2);
    assert!(split_native_struct_array(&descriptor, &vec![0; 9], layout.layout.size).is_err());

    let initialized = native_struct_layout(&to_json(&parse(TEST_INITIALIZED_POD_DESCRIPTOR)), HOST).unwrap();
    assert_eq!(initialized.size_field_initializers, vec!["size".to_string()]);

    let branded = DynComNativeStruct::new(descriptor.clone(), vec![1, 2, 3, 4, 5, 6, 7, 8]);
    assert_eq!(branded.check_native_struct(&descriptor, 8), Ok(()));
    assert_eq!(branded.bytes(), vec![1, 2, 3, 4, 5, 6, 7, 8]);
    let wrong_type = DynComNativeStruct::new(TEST_POD_DESCRIPTOR.replace("Test.Pod", "Test.Other"), vec![0; 8]);
    assert_eq!(wrong_type.check_native_struct(&descriptor, 8), Err(NativeStructValueError::TypeMismatch));
    let wrong_size = DynComNativeStruct::new(descriptor.clone(), vec![0; 7]);
    assert_eq!(wrong_size.check_native_struct(&descriptor, 8), Err(NativeStructValueError::SizeMismatch));
}
