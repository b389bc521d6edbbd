//! The strict schema that a raw by-value aggregate descriptor must follow,
//! and the by-value layout rules of the host ABI.
use vstd::prelude::*;
use crate::json::{
    JsonValue, JsonMember, string_is, spec_get, spec_get_str, spec_get_array, spec_as_array, spec_as_bool,
    lemma_get_decreases, lemma_array_item_decreases,
};
use crate::raw_layout::{
    RawDescriptorError, RawDescriptorFault, RawDescriptorKind, RawNumberField, SchemaContext,
    HostArchitecture, spec_qualified_name, validate_raw_qualified_name, spec_descriptor_usize,
    raw_descriptor_usize, names, view_result, stack_contains, spec_architecture_key, raw_host_architecture,
};

verus! {

/// What `char::to_lowercase` yields for a character outside ASCII.
pub uninterp spec fn char_lowercase(c: char) -> Seq<char>;

/// The code of `c` with an ASCII upper-case letter moved to its lower-case
/// letter.
pub open spec fn ascii_fold(c: char) -> u32 {
    if 65 <= (c as u32) <= 90 { ((c as u32) + 32) as u32 } else { c as u32 }
}

/// The lowercase mapping of one character: an ASCII character maps to
/// itself with upper-case letters lowered; any other character to what
/// `char::to_lowercase` yields.
pub open spec fn spec_to_lowercase(c: char) -> Seq<char> {
    if (c as u32) < 128 { seq![ascii_fold(c) as char] } else { char_lowercase(c) }
}

/// Calls `char::to_lowercase`, the Unicode lowercase mapping of one
/// character: for ASCII it lowers `A`..`Z` to `a`..`z` and keeps every
/// other character.
#[verifier::external_body]
fn to_lowercase_chars(c: char) -> (r: Vec<char>)
    ensures
        (c as u32) < 128 ==> r@ == seq![ascii_fold(c) as char],
        (c as u32) >= 128 ==> r@ == char_lowercase(c),
{
    c.to_lowercase().collect()
}

/// `key` without `-` and `_`, each remaining character lowercased.
pub open spec fn normalize_raw_key(key: Seq<char>) -> Seq<char>
    decreases key.len(),
{
    if key.len() == 0 {
        seq![]
    } else {
        let c = key.last();
        normalize_raw_key(key.drop_last()) + if c == '-' || c == '_' { seq![] } else { spec_to_lowercase(c) }
    }
}

/// The ABI markers that by-value descriptors may not use.
pub open spec fn spec_unsupported_marker(n: Seq<char>) -> bool {
    ||| n == "packed"@
    ||| n == "pack"@
    ||| n == "bitwidth"@
    ||| n == "bitfield"@
    ||| n == "vector"@
    ||| n == "hva"@
    ||| n == "flexible"@
    ||| n == "flexiblearray"@
    ||| n == "overaligned"@
    ||| n == "customalignment"@
    ||| n == "opaque"@
    ||| n == "nontrivial"@
    ||| n == "selectedmember"@
    ||| n == "selectedmemberonly"@
    ||| n == "incomplete"@
}

pub open spec fn spec_unsupported_raw_key(key: Seq<char>) -> bool {
    spec_unsupported_marker(normalize_raw_key(key))
}

/// `key` without its `-` and `_` characters.
pub open spec fn strip_raw_separators(key: Seq<char>) -> Seq<char>
    decreases key.len(),
{
    if key.len() == 0 {
        seq![]
    } else {
        let c = key.last();
        strip_raw_separators(key.drop_last()) + if c == '-' || c == '_' { seq![] } else { seq![c] }
    }
}

/// Each character of `s` lowercased, in order.
pub open spec fn lowercase_all(s: Seq<char>) -> Seq<char>
    decreases s.len(),
{
    if s.len() == 0 {
        seq![]
    } else {
        lowercase_all(s.drop_last()) + spec_to_lowercase(s.last())
    }
}

/// Two keys that differ only by `-` and `_` characters and by the case of
/// ASCII letters.
pub open spec fn same_raw_key_spelling(k1: Seq<char>, k2: Seq<char>) -> bool {
    let s1 = strip_raw_separators(k1);
    let s2 = strip_raw_separators(k2);
    &&& s1.len() == s2.len()
    &&& forall|i: int| 0 <= i < s1.len() ==> ascii_fold(#[trigger] s1[i]) == ascii_fold(s2[i])
}

proof fn lemma_normalize_is_lowercased_strip(key: Seq<char>)
    ensures
        normalize_raw_key(key) == lowercase_all(strip_raw_separators(key)),
    decreases key.len(),
{
    if key.len() > 0 {
        let c = key.last();
        let rest = strip_raw_separators(key.drop_last());
        lemma_normalize_is_lowercased_strip(key.drop_last());
        if !(c == '-' || c == '_') {
            assert(rest.push(c).drop_last() =~= rest);
            assert(rest + seq![c] =~= rest.push(c));
        } else {
            assert(rest + Seq::<char>::empty() =~= rest);
            assert(normalize_raw_key(key.drop_last()) + Seq::<char>::empty() =~= normalize_raw_key(key.drop_last()));
        }
    }
}

proof fn lemma_same_fold_same_lowercase(c1: char, c2: char)
    requires
        ascii_fold(c1) == ascii_fold(c2),
    ensures
        spec_to_lowercase(c1) == spec_to_lowercase(c2),
{
    if (c1 as u32) >= 128 && (c2 as u32) >= 128 {
        assert(c1 as u32 == c2 as u32);
        assert(c1 == c2);
    }
}

proof fn lemma_lowercase_all_by_fold(s1: Seq<char>, s2: Seq<char>)
    requires
        s1.len() == s2.len(),
        forall|i: int| 0 <= i < s1.len() ==> ascii_fold(#[trigger] s1[i]) == ascii_fold(s2[i]),
    ensures
        lowercase_all(s1) == lowercase_all(s2),
    decreases s1.len(),
{
    if s1.len() > 0 {
        assert forall|i: int| 0 <= i < s1.drop_last().len() implies
            ascii_fold(#[trigger] s1.drop_last()[i]) == ascii_fold(s2.drop_last()[i]) by {
            assert(ascii_fold(s1[i]) == ascii_fold(s2[i]));
        }
        lemma_lowercase_all_by_fold(s1.drop_last(), s2.drop_last());
        assert(ascii_fold(s1[s1.len() - 1]) == ascii_fold(s2[s2.len() - 1]));
        lemma_same_fold_same_lowercase(s1.last(), s2.last());
    }
}

/// Whether a key names an unsupported ABI marker does not depend on `-` and
/// `_` characters nor on the case of ASCII letters: two keys that differ
/// only in these get the same verdict (`bit_width`, `Bit-Width`,
/// `BITWIDTH` and `bitWidth` alike).
pub proof fn lemma_unsupported_key_ignores_separators_and_ascii_case(k1: Seq<char>, k2: Seq<char>)
    requires
        same_raw_key_spelling(k1, k2),
    ensures
        normalize_raw_key(k1) == normalize_raw_key(k2),
        spec_unsupported_raw_key(k1) == spec_unsupported_raw_key(k2),
{
    lemma_normalize_is_lowercased_strip(k1);
    lemma_normalize_is_lowercased_strip(k2);
    lemma_lowercase_all_by_fold(strip_raw_separators(k1), strip_raw_separators(k2));
}

/// Whether a character sequence equals a literal.
fn chars_are(v: &Vec<char>, literal: &str) -> (r: bool)
    ensures
        r == (v@ == literal@),
{
    let n = literal.unicode_len();
    if v.len() != n {
        return false;
    }
    let mut i: usize = 0;
    while i < n
        invariant
            n == literal@.len(),
            v@.len() == n,
            0 <= i <= n,
            forall|j: int| 0 <= j < i ==> v@[j] == literal@[j],
        decreases n - i,
    {
        if v[i] != literal.get_char(i) {
            return false;
        }
        i = i + 1;
    }
    assert(v@ =~= literal@);
    true
}

/// Whether a descriptor key names an ABI feature that raw by-value calls
/// refuse (compared without `-`, `_` and case).
pub fn is_explicitly_unsupported_raw_key(key: &str) -> (r: bool)
    ensures
        r == spec_unsupported_raw_key(key@),
{
    let n = key.unicode_len();
    let mut normalized: Vec<char> = Vec::new();
    let mut i: usize = 0;
    while i < n
        invariant
            n == key@.len(),
            0 <= i <= n,
            normalized@ == normalize_raw_key(key@.subrange(0, i as int)),
        decreases n - i,
    {
        let c = key.get_char(i);
        assert(key@.subrange(0, i + 1).drop_last() == key@.subrange(0, i as int));
        assert(key@.subrange(0, i + 1).last() == c);
        if c != '-' && c != '_' {
            let lower = to_lowercase_chars(c);
            assert(lower@ == spec_to_lowercase(c));
            let mut j: usize = 0;
            let ghost base = normalized@;
            while j < lower.len()
                invariant
                    0 <= j <= lower@.len(),
                    normalized@ == base + lower@.subrange(0, j as int),
                decreases lower@.len() - j,
            {
                normalized.push(lower[j]);
                assert(lower@.subrange(0, j + 1) == lower@.subrange(0, j as int).push(lower@[j as int]));
                j = j + 1;
            }
            assert(lower@.subrange(0, lower@.len() as int) == lower@);
        } else {
            assert(normalized@ == normalized@ + Seq::<char>::empty());
        }
        i = i + 1;
    }
    assert(key@.subrange(0, n as int) == key@);
    is_unsupported_marker(&normalized)
}

/// Whether a normalized key (no `-` or `_`, lowercased) names an ABI
/// feature that raw by-value calls refuse.
pub fn is_unsupported_marker(normalized: &Vec<char>) -> (r: bool)
    ensures
        r == spec_unsupported_marker(normalized@),
{
    chars_are(normalized, "packed") || chars_are(normalized, "pack") || chars_are(normalized, "bitwidth")
        || chars_are(normalized, "bitfield") || chars_are(normalized, "vector") || chars_are(normalized, "hva")
        || chars_are(normalized, "flexible") || chars_are(normalized, "flexiblearray")
        || chars_are(normalized, "overaligned") || chars_are(normalized, "customalignment")
        || chars_are(normalized, "opaque") || chars_are(normalized, "nontrivial")
        || chars_are(normalized, "selectedmember") || chars_are(normalized, "selectedmemberonly")
        || chars_are(normalized, "incomplete")
}

pub open spec fn literals(allowed: Seq<&str>) -> Seq<Seq<char>> {
    allowed.map_values(|s: &str| s@)
}

/// The first entry (in document order) whose key is not allowed, reported as
/// an unsupported ABI marker or an unknown key.
pub open spec fn spec_exact_member_keys(members: Seq<JsonMember>, allowed: Seq<Seq<char>>, context: SchemaContext)
    -> Result<(), RawDescriptorFault>
    decreases members.len(),
{
    if members.len() == 0 {
        Ok(())
    } else if allowed.contains(members[0].key@) {
        spec_exact_member_keys(members.drop_first(), allowed, context)
    } else if spec_unsupported_raw_key(members[0].key@) {
        Err(RawDescriptorFault::UnsupportedMarker(context, members[0].key@))
    } else {
        Err(RawDescriptorFault::UnknownKey(context, members[0].key@))
    }
}

/// `value` must be an object whose keys are all in `allowed`.
pub open spec fn spec_exact_raw_keys(value: JsonValue, allowed: Seq<Seq<char>>, context: SchemaContext)
    -> Result<(), RawDescriptorFault>
{
    match value {
        JsonValue::Object(members) => spec_exact_member_keys(members@, allowed, context),
        _ => Err(RawDescriptorFault::NotObject(context)),
    }
}

/// An object passes the exact-key check if and only if every one of its
/// keys is allowed; a refused object names a key that is not allowed, as
/// an unsupported ABI marker exactly when the key is one.
pub proof fn lemma_exact_keys(members: Seq<JsonMember>, allowed: Seq<Seq<char>>, context: SchemaContext)
    ensures
        spec_exact_member_keys(members, allowed, context) is Ok
            <==> (forall|i: int| 0 <= i < members.len() ==> allowed.contains(#[trigger] members[i].key@)),
        spec_exact_member_keys(members, allowed, context) matches Err(e) ==> ({
            ||| (e matches RawDescriptorFault::UnsupportedMarker(c, k)
                && c == context && !allowed.contains(k) && spec_unsupported_raw_key(k))
            ||| (e matches RawDescriptorFault::UnknownKey(c, k)
                && c == context && !allowed.contains(k) && !spec_unsupported_raw_key(k))
        }),
    decreases members.len(),
{
    if members.len() > 0 {
        lemma_exact_keys(members.drop_first(), allowed, context);
        if allowed.contains(members[0].key@) {
            if (forall|i: int| 0 <= i < members.drop_first().len() ==> allowed.contains(#[trigger] members.drop_first()[i].key@)) {
                assert forall|i: int| 0 <= i < members.len() implies allowed.contains(#[trigger] members[i].key@) by {
                    if i > 0 {
                        assert(members[i] == members.drop_first()[i - 1]);
                    }
                }
            } else {
                let j = choose|j: int| 0 <= j < members.drop_first().len() && !allowed.contains(#[trigger] members.drop_first()[j].key@);
                assert(members.drop_first()[j] == members[j + 1]);
            }
        }
    }
}

fn is_allowed(key: &String, allowed: &[&str]) -> (r: bool)
    ensures
        r == literals(allowed@).contains(key@),
{
    let mut j: usize = 0;
    while j < allowed.len()
        invariant
            0 <= j <= allowed@.len(),
            forall|k: int| 0 <= k < j ==> allowed@[k]@ != key@,
        decreases allowed@.len() - j,
    {
        if string_is(key, allowed[j]) {
            assert(literals(allowed@)[j as int] == key@);
            return true;
        }
        j = j + 1;
    }
    assert forall|k: int| 0 <= k < literals(allowed@).len() implies literals(allowed@)[k] != key@ by {
        assert(literals(allowed@)[k] == allowed@[k]@);
    }
    false
}

/// Checks that `value` is an object whose every key is in `allowed`.
pub fn validate_exact_raw_keys(value: &JsonValue, allowed: &[&str], context: SchemaContext)
    -> (r: Result<(), RawDescriptorError>)
    ensures
        view_result(r) == spec_exact_raw_keys(*value, literals(allowed@), context),
{
    let members = match value.as_object() {
        None => return Err(RawDescriptorError::NotObject(context)),
        Some(members) => members,
    };
    let mut i: usize = 0;
    assert(members@.skip(0) == members@);
    while i < members.len()
        invariant
            0 <= i <= members@.len(),
            spec_exact_raw_keys(*value, literals(allowed@), context)
                == spec_exact_member_keys(members@.skip(i as int), literals(allowed@), context),
        decreases members@.len() - i,
    {
        let key = &members[i].key;
        assert(members@.skip(i as int)[0] == members@[i as int]);
        assert(members@.skip(i as int).drop_first() == members@.skip(i + 1));
        if !is_allowed(key, allowed) {
            if is_explicitly_unsupported_raw_key(key.as_str()) {
                return Err(RawDescriptorError::UnsupportedMarker(context, key.clone()));
            }
            return Err(RawDescriptorError::UnknownKey(context, key.clone()));
        }
        i = i + 1;
    }
    Ok(())
}

pub open spec fn struct_layout_keys() -> Seq<Seq<char>> { seq!["size"@, "alignment"@, "fields"@] }
pub open spec fn union_layout_keys() -> Seq<Seq<char>> { seq!["size"@, "alignment"@, "fields"@, "complete"@] }
pub open spec fn struct_field_keys() -> Seq<Seq<char>> { seq!["name"@, "offset"@, "count"@, "type"@] }
pub open spec fn union_field_keys() -> Seq<Seq<char>> { seq!["name"@, "count"@, "type"@] }
pub open spec fn nested_type_keys() -> Seq<Seq<char>> { seq!["kind"@, "name"@, "layout"@] }
pub open spec fn scalar_type_keys() -> Seq<Seq<char>> { seq!["kind"@] }

/// Whether a layout carries `complete: true`.
pub open spec fn spec_complete_flag(layout: JsonValue) -> bool {
    match spec_get(layout, "complete"@) {
        Some(v) => spec_as_bool(v) == Some(true),
        None => false,
    }
}

pub open spec fn is_scalar_kind(k: Seq<char>) -> bool {
    ||| k == "i8"@ ||| k == "u8"@ ||| k == "i16"@ ||| k == "u16"@ ||| k == "i32"@ ||| k == "u32"@
    ||| k == "i64"@ ||| k == "u64"@ ||| k == "f32"@ ||| k == "f64"@ ||| k == "isize"@ ||| k == "usize"@
    ||| k == "guid"@ ||| k == "pointer"@
}

/// Schema check of one aggregate layout: identity, depth and recursion, then
/// the layout's own schema with the aggregate pushed on `stack`.
pub open spec fn spec_schema_layout(name: Seq<char>, layout: JsonValue, kind: RawDescriptorKind, stack: Seq<Seq<char>>)
    -> Result<(), RawDescriptorFault>
    decreases layout, 4int, 0int,
{
    if !spec_qualified_name(name) {
        Err(RawDescriptorFault::NotQualifiedName)
    } else if stack.len() >= crate::raw_layout::RAW_MAX_AGGREGATE_NESTING_DEPTH {
        Err(RawDescriptorFault::NestingLimit(name))
    } else if stack.contains(name) {
        Err(RawDescriptorFault::RecursiveCycle(name))
    } else {
        spec_schema_layout_body(name, layout, kind, stack.push(name))
    }
}

pub open spec fn spec_schema_layout_body(name: Seq<char>, layout: JsonValue, kind: RawDescriptorKind, stack: Seq<Seq<char>>)
    -> Result<(), RawDescriptorFault>
    decreases layout, 3int, 0int,
{
    let keys = if kind == RawDescriptorKind::Struct {
        spec_exact_raw_keys(layout, struct_layout_keys(), SchemaContext::StructLayout)
    } else {
        spec_exact_raw_keys(layout, union_layout_keys(), SchemaContext::UnionLayout)
    };
    if keys is Err {
        keys
    } else if kind == RawDescriptorKind::Union && !spec_complete_flag(layout) {
        Err(RawDescriptorFault::UnionIncomplete(name))
    } else if spec_descriptor_usize(layout, RawNumberField::Size) is Err {
        Err(spec_descriptor_usize(layout, RawNumberField::Size)->Err_0)
    } else if spec_descriptor_usize(layout, RawNumberField::Alignment) is Err {
        Err(spec_descriptor_usize(layout, RawNumberField::Alignment)->Err_0)
    } else if spec_get_array(layout, "fields"@) is None {
        Err(RawDescriptorFault::MissingFields)
    } else {
        spec_schema_fields(layout, kind, stack, 0)
    }
}

/// Schema check of each field from index `i` on.
pub open spec fn spec_schema_fields(layout: JsonValue, kind: RawDescriptorKind, stack: Seq<Seq<char>>, i: int)
    -> Result<(), RawDescriptorFault>
    decreases layout, 2int, spec_get_array(layout, "fields"@)->0.len() - i,
{
    let fields = spec_get_array(layout, "fields"@)->0;
    if !(spec_get_array(layout, "fields"@) is Some) || i < 0 || i >= fields.len() {
        Ok(())
    } else {
        let field = fields[i];
        let keys = if kind == RawDescriptorKind::Struct {
            spec_exact_raw_keys(field, struct_field_keys(), SchemaContext::AggregateField)
        } else {
            spec_exact_raw_keys(field, union_field_keys(), SchemaContext::AggregateField)
        };
        if keys is Err {
            keys
        } else if spec_get_str(field, "name"@) is None {
            Err(RawDescriptorFault::FieldMissingName)
        } else if kind == RawDescriptorKind::Struct && spec_descriptor_usize(field, RawNumberField::Offset) is Err {
            Err(spec_descriptor_usize(field, RawNumberField::Offset)->Err_0)
        } else if spec_descriptor_usize(field, RawNumberField::Count) is Err {
            Err(spec_descriptor_usize(field, RawNumberField::Count)->Err_0)
        } else if spec_descriptor_usize(field, RawNumberField::Count)->Ok_0 == 0 {
            Err(RawDescriptorFault::ZeroCount)
        } else {
            match spec_get(field, "type"@) {
                None => Err(RawDescriptorFault::MissingType),
                Some(typ) => {
                    proof {
                        lemma_get_decreases(layout, "fields"@);
                        lemma_array_item_decreases(spec_get(layout, "fields"@)->0, i);
                        lemma_get_decreases(field, "type"@);
                    }
                    match spec_schema_type(typ, stack) {
                        Err(e) => Err(e),
                        Ok(()) => spec_schema_fields(layout, kind, stack, i + 1),
                    }
                },
            }
        }
    }
}

/// Schema check of a field type: a scalar with only `kind`, or a nested
/// aggregate with `kind`, `name` and `layout`.
pub open spec fn spec_schema_type(typ: JsonValue, stack: Seq<Seq<char>>) -> Result<(), RawDescriptorFault>
    decreases typ, 1int, 0int,
{
    match spec_get_str(typ, "kind"@) {
        None => Err(RawDescriptorFault::MissingTypeKind),
        Some(k) => if is_scalar_kind(k) {
            spec_exact_raw_keys(typ, scalar_type_keys(), SchemaContext::ScalarFieldType)
        } else if k == "struct"@ || k == "union"@ {
            if spec_exact_raw_keys(typ, nested_type_keys(), SchemaContext::NestedAggregateType) is Err {
                spec_exact_raw_keys(typ, nested_type_keys(), SchemaContext::NestedAggregateType)
            } else {
                match spec_get_str(typ, "name"@) {
                    None => Err(RawDescriptorFault::NestedAggregateMissingName),
                    Some(n) => match spec_get(typ, "layout"@) {
                        None => Err(RawDescriptorFault::NestedAggregateMissingLayout),
                        Some(l) => {
                            proof { lemma_get_decreases(typ, "layout"@); }
                            spec_schema_layout(n, l, if k == "struct"@ { RawDescriptorKind::Struct } else { RawDescriptorKind::Union }, stack)
                        },
                    },
                }
            }
        } else {
            Err(RawDescriptorFault::SchemaUnsupportedKind(k))
        },
    }
}

fn is_scalar_kind_name(k: &String) -> (r: bool)
    ensures
        r == is_scalar_kind(k@),
{
    string_is(k, "i8") || string_is(k, "u8") || string_is(k, "i16") || string_is(k, "u16")
        || string_is(k, "i32") || string_is(k, "u32") || string_is(k, "i64") || string_is(k, "u64")
        || string_is(k, "f32") || string_is(k, "f64") || string_is(k, "isize") || string_is(k, "usize")
        || string_is(k, "guid") || string_is(k, "pointer")
}

/// Schema check of one aggregate layout; `stack` is left as it was.
pub fn validate_raw_schema_layout(name: &String, layout: &JsonValue, kind: RawDescriptorKind, stack: &mut Vec<String>)
    -> (r: Result<(), RawDescriptorError>)
    ensures
        final(stack)@ == old(stack)@,
        view_result(r) == spec_schema_layout(name@, *layout, kind, names(old(stack)@)),
    decreases layout, 4int, 0int,
{
    match validate_raw_qualified_name(name.as_str()) {
        Err(e) => return Err(e),
        Ok(()) => {},
    }
    if stack.len() >= crate::raw_layout::RAW_MAX_AGGREGATE_NESTING_DEPTH {
        return Err(RawDescriptorError::NestingLimit(name.clone()));
    }
    if stack_contains(stack, name) {
        return Err(RawDescriptorError::RecursiveCycle(name.clone()));
    }
    let ghost before = stack@;
    stack.push(name.clone());
    assert(names(before.push(*name)) =~= names(before).push(name@));
    let result = validate_raw_schema_layout_body(name, layout, kind, stack);
    stack.pop();
    assert(stack@ =~= before);
    result
}

/// Schema check of a layout's keys, numbers and fields.
pub fn validate_raw_schema_layout_body(name: &String, layout: &JsonValue, kind: RawDescriptorKind, stack: &mut Vec<String>)
    -> (r: Result<(), RawDescriptorError>)
    ensures
        final(stack)@ == old(stack)@,
        view_result(r) == spec_schema_layout_body(name@, *layout, kind, names(old(stack)@)),
    decreases layout, 3int, 0int,
{
    if kind == RawDescriptorKind::Struct {
        let keys = ["size", "alignment", "fields"];
        assert(literals(keys@) =~= struct_layout_keys());
        match validate_exact_raw_keys(layout, &keys, SchemaContext::StructLayout) {
            Err(e) => return Err(e),
            Ok(()) => {},
        }
    } else {
        let keys = ["size", "alignment", "fields", "complete"];
        assert(literals(keys@) =~= union_layout_keys());
        match validate_exact_raw_keys(layout, &keys, SchemaContext::UnionLayout) {
            Err(e) => return Err(e),
            Ok(()) => {},
        }
        let complete = match layout.get("complete") {
            Some(v) => v.as_bool(),
            None => None,
        };
        if complete != Some(true) {
            return Err(RawDescriptorError::UnionIncomplete(name.clone()));
        }
    }
    match raw_descriptor_usize(layout, RawNumberField::Size) {
        Err(e) => return Err(e),
        Ok(_) => {},
    }
    match raw_descriptor_usize(layout, RawNumberField::Alignment) {
        Err(e) => return Err(e),
        Ok(_) => {},
    }
    let fields = match layout.get_array("fields") {
        None => return Err(RawDescriptorError::MissingFields),
        Some(fields) => fields,
    };
    let ghost st = names(stack@);
    let mut i: usize = 0;
    while i < fields.len()
        invariant
            stack@ == old(stack)@,
            st == names(old(stack)@),
            spec_get_array(*layout, "fields"@) == Some(fields@),
            0 <= i <= fields@.len(),
            spec_schema_layout_body(name@, *layout, kind, st) == spec_schema_fields(*layout, kind, st, i as int),
        decreases fields@.len() - i,
    {
        let field = &fields[i];
        if kind == RawDescriptorKind::Struct {
            let keys = ["name", "offset", "count", "type"];
            assert(literals(keys@) =~= struct_field_keys());
            match validate_exact_raw_keys(field, &keys, SchemaContext::AggregateField) {
                Err(e) => return Err(e),
                Ok(()) => {},
            }
        } else {
            let keys = ["name", "count", "type"];
            assert(literals(keys@) =~= union_field_keys());
            match validate_exact_raw_keys(field, &keys, SchemaContext::AggregateField) {
                Err(e) => return Err(e),
                Ok(()) => {},
            }
        }
        if field.get_str("name").is_none() {
            return Err(RawDescriptorError::FieldMissingName);
        }
        if kind == RawDescriptorKind::Struct {
            match raw_descriptor_usize(field, RawNumberField::Offset) {
                Err(e) => return Err(e),
                Ok(_) => {},
            }
        }
        let count = match raw_descriptor_usize(field, RawNumberField::Count) {
            Err(e) => return Err(e),
            Ok(count) => count,
        };
        if count == 0 {
            return Err(RawDescriptorError::ZeroCount);
        }
        let typ = match field.get("type") {
            None => return Err(RawDescriptorError::MissingType),
            Some(typ) => typ,
        };
        proof {
            lemma_get_decreases(*layout, "fields"@);
            lemma_array_item_decreases(spec_get(*layout, "fields"@)->0, i as int);
            lemma_get_decreases(*field, "type"@);
        }
        match validate_raw_schema_type(typ, stack) {
            Err(e) => return Err(e),
            Ok(()) => {},
        }
        i = i + 1;
    }
    Ok(())
}

/// Schema check of one field type.
pub fn validate_raw_schema_type(typ: &JsonValue, stack: &mut Vec<String>) -> (r: Result<(), RawDescriptorError>)
    ensures
        final(stack)@ == old(stack)@,
        view_result(r) == spec_schema_type(*typ, names(old(stack)@)),
    decreases typ, 1int, 0int,
{
    let kind = match typ.get_str("kind") {
        None => return Err(RawDescriptorError::MissingTypeKind),
        Some(kind) => kind,
    };
    if is_scalar_kind_name(kind) {
        let keys = ["kind"];
        assert(literals(keys@) =~= scalar_type_keys());
        validate_exact_raw_keys(typ, &keys, SchemaContext::ScalarFieldType)
    } else if string_is(kind, "struct") || string_is(kind, "union") {
        let keys = ["kind", "name", "layout"];
        assert(literals(keys@) =~= nested_type_keys());
        match validate_exact_raw_keys(typ, &keys, SchemaContext::NestedAggregateType) {
            Err(e) => return Err(e),
            Ok(()) => {},
        }
        let name = match typ.get_str("name") {
            None => return Err(RawDescriptorError::NestedAggregateMissingName),
            Some(name) => name,
        };
        let layout = match typ.get("layout") {
            None => return Err(RawDescriptorError::NestedAggregateMissingLayout),
            Some(layout) => layout,
        };
        proof { lemma_get_decreases(*typ, "layout"@); }
        let nested = if string_is(kind, "struct") { RawDescriptorKind::Struct } else { RawDescriptorKind::Union };
        validate_raw_schema_layout(name, layout, nested, stack)
    } else {
        Err(RawDescriptorError::SchemaUnsupportedKind(kind.clone()))
    }
}

pub open spec fn struct_root_keys() -> Seq<Seq<char>> { seq!["name"@, "x86"@, "x64"@, "arm64"@, "initializers"@] }
pub open spec fn union_root_keys() -> Seq<Seq<char>> { seq!["name"@, "x86"@, "x64"@, "arm64"@] }
pub open spec fn initializer_keys() -> Seq<Seq<char>> { seq!["kind"@, "field"@] }

/// The descriptor architectures, in the order they are checked.
pub open spec fn descriptor_architectures() -> Seq<Seq<char>> { seq!["x86"@, "x64"@, "arm64"@] }

/// Schema check of each present architecture layout from index `a`; `found`
/// counts those already seen.
pub open spec fn spec_schema_architectures(root: JsonValue, name: Seq<char>, kind: RawDescriptorKind, a: int, found: int)
    -> Result<(), RawDescriptorFault>
    decreases 3 - a,
{
    if a < 0 || a >= 3 {
        if found == 0 { Err(RawDescriptorFault::NoArchitecture) } else { Ok(()) }
    } else {
        match spec_get(root, descriptor_architectures()[a]) {
            None => spec_schema_architectures(root, name, kind, a + 1, found),
            Some(layout) => match spec_schema_layout(name, layout, kind, seq![]) {
                Err(e) => Err(e),
                Ok(()) => spec_schema_architectures(root, name, kind, a + 1, found + 1),
            },
        }
    }
}

/// Schema check of each struct initializer from index `i`.
pub open spec fn spec_schema_initializers(items: Seq<JsonValue>, i: int) -> Result<(), RawDescriptorFault>
    decreases items.len() - i,
{
    if i < 0 || i >= items.len() {
        Ok(())
    } else {
        let item = items[i];
        if spec_exact_raw_keys(item, initializer_keys(), SchemaContext::Initializer) is Err {
            spec_exact_raw_keys(item, initializer_keys(), SchemaContext::Initializer)
        } else {
            match spec_get_str(item, "kind"@) {
                None => Err(RawDescriptorFault::InitializerMissingKind),
                Some(k) => if k != "sizeOfLayout"@ {
                    Err(RawDescriptorFault::UnsupportedInitializer(k))
                } else if spec_get_str(item, "field"@) is None {
                    Err(RawDescriptorFault::InitializerMissingField)
                } else {
                    spec_schema_initializers(items, i + 1)
                },
            }
        }
    }
}

/// The whole by-value schema of a descriptor root.
pub open spec fn spec_by_value_schema(root: JsonValue, kind: RawDescriptorKind) -> Result<(), RawDescriptorFault> {
    let keys = if kind == RawDescriptorKind::Struct {
        spec_exact_raw_keys(root, struct_root_keys(), SchemaContext::RootDescriptor)
    } else {
        spec_exact_raw_keys(root, union_root_keys(), SchemaContext::RootDescriptor)
    };
    if keys is Err {
        keys
    } else {
        match spec_get_str(root, "name"@) {
            None => Err(RawDescriptorFault::MissingName),
            Some(name) => if !spec_qualified_name(name) {
                Err(RawDescriptorFault::NotQualifiedName)
            } else {
                match spec_schema_architectures(root, name, kind, 0, 0) {
                    Err(e) => Err(e),
                    Ok(()) => match spec_get(root, "initializers"@) {
                        None => Ok(()),
                        Some(init) => match spec_as_array(init) {
                            None => Err(RawDescriptorFault::InitializersNotArray),
                            Some(items) => spec_schema_initializers(items, 0),
                        },
                    },
                }
            },
        }
    }
}

/// Checks that a descriptor root uses only the keys and field kinds that raw
/// by-value calls support.
pub fn validate_raw_by_value_schema(root: &JsonValue, kind: RawDescriptorKind) -> (r: Result<(), RawDescriptorError>)
    ensures
        view_result(r) == spec_by_value_schema(*root, kind),
{
    if kind == RawDescriptorKind::Struct {
        let keys = ["name", "x86", "x64", "arm64", "initializers"];
        assert(literals(keys@) =~= struct_root_keys());
        match validate_exact_raw_keys(root, &keys, SchemaContext::RootDescriptor) {
            Err(e) => return Err(e),
            Ok(()) => {},
        }
    } else {
        let keys = ["name", "x86", "x64", "arm64"];
        assert(literals(keys@) =~= union_root_keys());
        match validate_exact_raw_keys(root, &keys, SchemaContext::RootDescriptor) {
            Err(e) => return Err(e),
            Ok(()) => {},
        }
    }
    let name = match root.get_str("name") {
        None => return Err(RawDescriptorError::MissingName),
        Some(name) => name,
    };
    match validate_raw_qualified_name(name.as_str()) {
        Err(e) => return Err(e),
        Ok(()) => {},
    }
    let architectures = ["x86", "x64", "arm64"];
    assert(architectures@.map_values(|s: &str| s@) =~= descriptor_architectures());
    let ghost keys_ok = if kind == RawDescriptorKind::Struct {
        spec_exact_raw_keys(*root, struct_root_keys(), SchemaContext::RootDescriptor)
    } else {
        spec_exact_raw_keys(*root, union_root_keys(), SchemaContext::RootDescriptor)
    };
    assert(keys_ok is Ok);
    let mut found: usize = 0;
    let mut a: usize = 0;
    while a < 3
        invariant
            0 <= a <= 3,
            found <= a,
            architectures@.map_values(|s: &str| s@) == descriptor_architectures(),
            keys_ok is Ok,
            keys_ok == (if kind == RawDescriptorKind::Struct {
                spec_exact_raw_keys(*root, struct_root_keys(), SchemaContext::RootDescriptor)
            } else {
                spec_exact_raw_keys(*root, union_root_keys(), SchemaContext::RootDescriptor)
            }),
            spec_get_str(*root, "name"@) == Some(name@),
            spec_qualified_name(name@),
            spec_schema_architectures(*root, name@, kind, 0, 0) == spec_schema_architectures(*root, name@, kind, a as int, found as int),
        decreases 3 - a,
    {
        assert(architectures@.map_values(|s: &str| s@)[a as int] == architectures@[a as int]@);
        match root.get(architectures[a]) {
            None => {},
            Some(layout) => {
                found = found + 1;
                let mut stack: Vec<String> = Vec::new();
                assert(names(stack@) =~= seq![]);
                match validate_raw_schema_layout(name, layout, kind, &mut stack) {
                    Err(e) => return Err(e),
                    Ok(()) => {},
                }
            },
        }
        a = a + 1;
    }
    if found == 0 {
        return Err(RawDescriptorError::NoArchitecture);
    }
    match root.get("initializers") {
        None => Ok(()),
        Some(init) => {
            let items = match init.as_array() {
                None => return Err(RawDescriptorError::InitializersNotArray),
                Some(items) => items,
            };
            let mut i: usize = 0;
            assert(spec_by_value_schema(*root, kind) == spec_schema_initializers(items@, 0));
            while i < items.len()
                invariant
                    0 <= i <= items@.len(),
                    spec_by_value_schema(*root, kind) == spec_schema_initializers(items@, i as int),
                decreases items@.len() - i,
            {
                let item = &items[i];
                let keys = ["kind", "field"];
                assert(literals(keys@) =~= initializer_keys());
                match validate_exact_raw_keys(item, &keys, SchemaContext::Initializer) {
                    Err(e) => return Err(e),
                    Ok(()) => {},
                }
                let k = match item.get_str("kind") {
                    None => return Err(RawDescriptorError::InitializerMissingKind),
                    Some(k) => k,
                };
                if !string_is(k, "sizeOfLayout") {
                    return Err(RawDescriptorError::UnsupportedInitializer(k.clone()));
                }
                if item.get_str("field").is_none() {
                    return Err(RawDescriptorError::InitializerMissingField);
                }
                i = i + 1;
            }
            Ok(())
        },
    }
}

/// The by-value ABI check of a layout: complete unions, the Win64 libffi
/// irregular-size defect at the top level, nested aggregates in turn.
/// `Ok` holds whether the layout contains a union.
pub open spec fn spec_by_value_layout(layout: JsonValue, kind: RawDescriptorKind, top_level: bool, arch: HostArchitecture)
    -> Result<bool, RawDescriptorFault>
    decreases layout, 1int, 0int,
{
    match spec_descriptor_usize(layout, RawNumberField::Size) {
        Err(e) => Err(e),
        Ok(size) => if kind == RawDescriptorKind::Union && !spec_complete_flag(layout) {
            Err(RawDescriptorFault::ByValueUnionIncomplete)
        } else if arch == HostArchitecture::X64 && top_level && (size == 3 || size == 5 || size == 6 || size == 7) {
            Err(RawDescriptorFault::IrregularSize(size))
        } else if spec_get_array(layout, "fields"@) is None {
            Err(RawDescriptorFault::MissingFields)
        } else {
            spec_by_value_fields(layout, arch, 0, kind == RawDescriptorKind::Union)
        },
    }
}

/// The by-value check of each field from index `i`, `acc` holding whether a
/// union was met so far.
pub open spec fn spec_by_value_fields(layout: JsonValue, arch: HostArchitecture, i: int, acc: bool)
    -> Result<bool, RawDescriptorFault>
    decreases layout, 0int, spec_get_array(layout, "fields"@)->0.len() - i,
{
    let fields = spec_get_array(layout, "fields"@)->0;
    if !(spec_get_array(layout, "fields"@) is Some) || i < 0 || i >= fields.len() {
        Ok(acc)
    } else {
        let field = fields[i];
        match spec_get(field, "type"@) {
            None => Err(RawDescriptorFault::MissingType),
            Some(typ) => match spec_get_str(typ, "kind"@) {
                None => Err(RawDescriptorFault::MissingTypeKind),
                Some(k) => if k == "struct"@ || k == "union"@ {
                    match spec_get(typ, "layout"@) {
                        None => Err(RawDescriptorFault::NestedAggregateMissingLayout),
                        Some(nested) => {
                            proof {
                                lemma_get_decreases(layout, "fields"@);
                                lemma_array_item_decreases(spec_get(layout, "fields"@)->0, i);
                                lemma_get_decreases(field, "type"@);
                                lemma_get_decreases(typ, "layout"@);
                            }
                            match spec_by_value_layout(nested, if k == "union"@ { RawDescriptorKind::Union } else { RawDescriptorKind::Struct }, false, arch) {
                                Err(e) => Err(e),
                                Ok(inner) => spec_by_value_fields(layout, arch, i + 1, acc || inner),
                            }
                        },
                    }
                } else {
                    spec_by_value_fields(layout, arch, i + 1, acc)
                },
            },
        }
    }
}

/// The Win64 irregular-size defect concerns only the aggregate passed by
/// value itself: a nested aggregate is never refused for its size, and a
/// layout is refused as `IrregularSize(s)` only at the top level on x64,
/// where `s` is its own size and one of 3, 5, 6 or 7 bytes.
pub proof fn lemma_irregular_size_only_at_top_level(layout: JsonValue, kind: RawDescriptorKind, top_level: bool, arch: HostArchitecture)
    ensures
        spec_by_value_layout(layout, kind, top_level, arch) matches Err(RawDescriptorFault::IrregularSize(s)) ==> {
            &&& top_level
            &&& arch == HostArchitecture::X64
            &&& spec_descriptor_usize(layout, RawNumberField::Size) == Ok::<usize, RawDescriptorFault>(s)
            &&& (s == 3 || s == 5 || s == 6 || s == 7)
        },
        !top_level ==> !(spec_by_value_layout(layout, kind, top_level, arch) matches Err(RawDescriptorFault::IrregularSize(_))),
        ({
            let size = spec_descriptor_usize(layout, RawNumberField::Size);
            top_level && arch == HostArchitecture::X64 && size is Ok
                && (size->Ok_0 == 3 || size->Ok_0 == 5 || size->Ok_0 == 6 || size->Ok_0 == 7)
                && !(kind == RawDescriptorKind::Union && !spec_complete_flag(layout))
                ==> spec_by_value_layout(layout, kind, top_level, arch)
                    == Err::<bool, RawDescriptorFault>(RawDescriptorFault::IrregularSize(size->Ok_0))
        }),
    decreases layout, 1int, 0int,
{
    if spec_descriptor_usize(layout, RawNumberField::Size) is Ok
        && !(kind == RawDescriptorKind::Union && !spec_complete_flag(layout))
        && !(arch == HostArchitecture::X64 && top_level && (spec_descriptor_usize(layout, RawNumberField::Size)->Ok_0 == 3
            || spec_descriptor_usize(layout, RawNumberField::Size)->Ok_0 == 5
            || spec_descriptor_usize(layout, RawNumberField::Size)->Ok_0 == 6
            || spec_descriptor_usize(layout, RawNumberField::Size)->Ok_0 == 7))
        && spec_get_array(layout, "fields"@) is Some
    {
        lemma_by_value_fields_never_irregular(layout, arch, 0, kind == RawDescriptorKind::Union);
    }
}

proof fn lemma_by_value_fields_never_irregular(layout: JsonValue, arch: HostArchitecture, i: int, acc: bool)
    ensures
        !(spec_by_value_fields(layout, arch, i, acc) matches Err(RawDescriptorFault::IrregularSize(_))),
    decreases layout, 0int, spec_get_array(layout, "fields"@)->0.len() - i,
{
    let fields = spec_get_array(layout, "fields"@)->0;
    if spec_get_array(layout, "fields"@) is Some && 0 <= i < fields.len() {
        let field = fields[i];
        if let Some(typ) = spec_get(field, "type"@) {
            if let Some(k) = spec_get_str(typ, "kind"@) {
                if k == "struct"@ || k == "union"@ {
                    if let Some(nested) = spec_get(typ, "layout"@) {
                        lemma_get_decreases(layout, "fields"@);
                        lemma_array_item_decreases(spec_get(layout, "fields"@)->0, i);
                        lemma_get_decreases(field, "type"@);
                        lemma_get_decreases(typ, "layout"@);
                        let nk = if k == "union"@ { RawDescriptorKind::Union } else { RawDescriptorKind::Struct };
                        lemma_irregular_size_only_at_top_level(nested, nk, false, arch);
                        if let Ok(inner) = spec_by_value_layout(nested, nk, false, arch) {
                            lemma_by_value_fields_never_irregular(layout, arch, i + 1, acc || inner);
                        }
                    }
                } else {
                    lemma_by_value_fields_never_irregular(layout, arch, i + 1, acc);
                }
            }
        }
    }
}

/// A descriptor that follows the schema is refused as `IrregularSize(s)`
/// only on x64, where `s` is the size of its own layout and one of 3, 5, 6
/// or 7 bytes; its nested aggregates never cause it.
pub proof fn lemma_descriptor_irregular_size_is_its_own(root: JsonValue, kind: RawDescriptorKind, arch: HostArchitecture)
    ensures
        spec_by_value_schema(root, kind) is Ok ==> (
            spec_by_value_descriptor(root, kind, arch) matches Err(RawDescriptorFault::IrregularSize(s)) ==> {
                &&& arch == HostArchitecture::X64
                &&& spec_get(root, spec_architecture_key(arch)) matches Some(layout)
                    && spec_descriptor_usize(layout, RawNumberField::Size) == Ok::<usize, RawDescriptorFault>(s)
                &&& (s == 3 || s == 5 || s == 6 || s == 7)
            }),
{
    if let Some(layout) = spec_get(root, spec_architecture_key(arch)) {
        lemma_irregular_size_only_at_top_level(layout, kind, true, arch);
    }
}

/// The by-value ABI check of one layout; returns whether it contains a union.
pub fn validate_raw_by_value_layout(layout: &JsonValue, kind: RawDescriptorKind, top_level: bool, arch: HostArchitecture)
    -> (r: Result<bool, RawDescriptorError>)
    ensures
        view_result(r) == spec_by_value_layout(*layout, kind, top_level, arch),
    decreases layout, 1int, 0int,
{
    let size = match raw_descriptor_usize(layout, RawNumberField::Size) {
        Err(e) => return Err(e),
        Ok(size) => size,
    };
    if kind == RawDescriptorKind::Union {
        let complete = match layout.get("complete") {
            Some(v) => v.as_bool(),
            None => None,
        };
        if complete != Some(true) {
            return Err(RawDescriptorError::ByValueUnionIncomplete);
        }
    }
    if arch == HostArchitecture::X64 && top_level && (size == 3 || size == 5 || size == 6 || size == 7) {
        return Err(RawDescriptorError::IrregularSize(size));
    }
    let fields = match layout.get_array("fields") {
        None => return Err(RawDescriptorError::MissingFields),
        Some(fields) => fields,
    };
    let mut contains_union = kind == RawDescriptorKind::Union;
    let mut i: usize = 0;
    while i < fields.len()
        invariant
            spec_get_array(*layout, "fields"@) == Some(fields@),
            0 <= i <= fields@.len(),
            spec_by_value_layout(*layout, kind, top_level, arch)
                == spec_by_value_fields(*layout, arch, i as int, contains_union),
        decreases fields@.len() - i,
    {
        let field = &fields[i];
        let typ = match field.get("type") {
            None => return Err(RawDescriptorError::MissingType),
            Some(typ) => typ,
        };
        let k = match typ.get_str("kind") {
            None => return Err(RawDescriptorError::MissingTypeKind),
            Some(k) => k,
        };
        if string_is(k, "struct") || string_is(k, "union") {
            let nested_kind = if string_is(k, "union") { RawDescriptorKind::Union } else { RawDescriptorKind::Struct };
            let nested = match typ.get("layout") {
                None => return Err(RawDescriptorError::NestedAggregateMissingLayout),
                Some(nested) => nested,
            };
            proof {
                lemma_get_decreases(*layout, "fields"@);
                lemma_array_item_decreases(spec_get(*layout, "fields"@)->0, i as int);
                lemma_get_decreases(*field, "type"@);
                lemma_get_decreases(*typ, "layout"@);
            }
            let inner = match validate_raw_by_value_layout(nested, nested_kind, false, arch) {
                Err(e) => return Err(e),
                Ok(inner) => inner,
            };
            contains_union = contains_union || inner;
        }
        i = i + 1;
    }
    Ok(contains_union)
}

/// The full by-value check of a descriptor root for the host architecture.
pub open spec fn spec_by_value_descriptor(root: JsonValue, kind: RawDescriptorKind, arch: HostArchitecture)
    -> Result<(), RawDescriptorFault>
{
    match spec_by_value_schema(root, kind) {
        Err(e) => Err(e),
        Ok(()) => match spec_get(root, spec_architecture_key(arch)) {
            None => Err(RawDescriptorFault::MissingArchitecture(arch)),
            Some(layout) => match spec_by_value_layout(layout, kind, true, arch) {
                Err(e) => Err(e),
                Ok(contains_union) => if arch == HostArchitecture::Arm64 && contains_union {
                    Err(RawDescriptorFault::Arm64ByValueUnion)
                } else {
                    Ok(())
                },
            },
        },
    }
}

/// Checks that a parsed descriptor can be passed and returned by value.
pub fn validate_raw_by_value_descriptor(root: &JsonValue, kind: RawDescriptorKind, arch: HostArchitecture)
    -> (r: Result<(), RawDescriptorError>)
    ensures
        view_result(r) == spec_by_value_descriptor(*root, kind, arch),
{
    match validate_raw_by_value_schema(root, kind) {
        Err(e) => return Err(e),
        Ok(()) => {},
    }
    let layout = match root.get(raw_host_architecture(arch)) {
        None => return Err(RawDescriptorError::MissingArchitecture(arch)),
        Some(layout) => layout,
    };
    let contains_union = match validate_raw_by_value_layout(layout, kind, true, arch) {
        Err(e) => return Err(e),
        Ok(c) => c,
    };
    if arch == HostArchitecture::Arm64 && contains_union {
        return Err(RawDescriptorError::Arm64ByValueUnion);
    }
    Ok(())
}

} // verus!
