//! Limits on raw aggregate descriptors: qualified identities, nesting,
//! byte size, fixed-field expansion and libffi element expansion.
use vstd::prelude::*;
use crate::json::{JsonValue, string_is, spec_get, spec_as_u64, spec_get_str, spec_get_array, lemma_get_decreases, lemma_array_item_decreases};

verus! {

pub const RAW_MAX_AGGREGATE_BYTE_SIZE: usize = 1048576;
pub const RAW_MAX_AGGREGATE_NESTING_DEPTH: usize = 32;
pub const RAW_MAX_FIXED_FIELD_EXPANSION: usize = 65536;
pub const RAW_MAX_LIBFFI_ELEMENTS: usize = 65536;

/// Whether a raw descriptor (or nested descriptor) describes a struct or a union.
#[derive(Clone, Copy, Debug, PartialEq, Eq, Structural)]
pub enum RawDescriptorKind {
    Struct,
    Union,
}

/// What a validated aggregate layout expands to.
#[derive(Clone, Copy)]
pub struct RawAggregateMetrics {
    pub size: usize,
    pub expanded_fields: usize,
    pub libffi_elements: usize,
}

/// What one field type contributes before its `count` is applied.
#[derive(Clone, Copy)]
pub struct RawFieldMetrics {
    pub size: usize,
    pub expanded_fields: usize,
    pub libffi_elements: usize,
}

/// The numeric descriptor entries read as pointer-width integers.
#[derive(Clone, Copy, Debug, PartialEq, Eq, Structural)]
pub enum RawNumberField {
    Size,
    Alignment,
    Offset,
    Count,
}

pub open spec fn spec_number_key(field: RawNumberField) -> Seq<char> {
    match field {
        RawNumberField::Size => "size"@,
        RawNumberField::Alignment => "alignment"@,
        RawNumberField::Offset => "offset"@,
        RawNumberField::Count => "count"@,
    }
}

/// The JSON member that holds a numeric field.
pub fn number_key(field: RawNumberField) -> (r: &'static str)
    ensures
        r@ == spec_number_key(field),
{
    match field {
        RawNumberField::Size => "size",
        RawNumberField::Alignment => "alignment",
        RawNumberField::Offset => "offset",
        RawNumberField::Count => "count",
    }
}

/// The architecture whose layout a descriptor is read for.
#[derive(Clone, Copy, Debug, PartialEq, Eq, Structural)]
pub enum HostArchitecture {
    X86,
    X64,
    Arm64,
    Unsupported,
}

pub open spec fn spec_architecture_key(arch: HostArchitecture) -> Seq<char> {
    match arch {
        HostArchitecture::X86 => "x86"@,
        HostArchitecture::X64 => "x64"@,
        HostArchitecture::Arm64 => "arm64"@,
        HostArchitecture::Unsupported => "unsupported"@,
    }
}

/// The descriptor key that holds the layout for `arch`.
pub fn raw_host_architecture(arch: HostArchitecture) -> (r: &'static str)
    ensures
        r@ == spec_architecture_key(arch),
{
    match arch {
        HostArchitecture::X86 => "x86",
        HostArchitecture::X64 => "x64",
        HostArchitecture::Arm64 => "arm64",
        HostArchitecture::Unsupported => "unsupported",
    }
}

/// Where in a by-value descriptor an object with a fixed key set stands.
#[derive(Clone, Copy, Debug, PartialEq, Eq, Structural)]
pub enum SchemaContext {
    RootDescriptor,
    Initializer,
    StructLayout,
    UnionLayout,
    AggregateField,
    ScalarFieldType,
    NestedAggregateType,
}

/// Why a raw aggregate descriptor was refused.
#[derive(Debug)]
pub enum RawDescriptorError {
    MissingName,
    MissingArchitecture(HostArchitecture),
    NotObject(SchemaContext),
    UnsupportedMarker(SchemaContext, String),
    UnknownKey(SchemaContext, String),
    NoArchitecture,
    InitializersNotArray,
    InitializerMissingKind,
    UnsupportedInitializer(String),
    InitializerMissingField,
    UnionIncomplete(String),
    FieldMissingName,
    ZeroCount,
    SchemaUnsupportedKind(String),
    NestedAggregateMissingName,
    NestedAggregateMissingLayout,
    ByValueUnionIncomplete,
    IrregularSize(usize),
    Arm64ByValueUnion,
    NotQualifiedName,
    NestingLimit(String),
    RecursiveCycle(String),
    InvalidNumber(RawNumberField),
    SizeLimit(String, usize),
    FieldCountLimit(String),
    MissingFields,
    FieldCountRange(String),
    MissingType,
    MissingTypeKind,
    ExpansionOverflow,
    ExpansionLimit(String),
    ByteSizeOverflow,
    LibffiOverflow,
    FieldsOverlap(String),
    LibffiLimit(String),
    FieldEndOverflow,
    FieldsExceedSize(String),
    NestedMissingName(RawDescriptorKind),
    NestedMissingLayout(RawDescriptorKind),
    UnsupportedFieldKind(String),
}

/// The refusal reasons with names as character sequences.
pub enum RawDescriptorFault {
    MissingName,
    MissingArchitecture(HostArchitecture),
    NotObject(SchemaContext),
    UnsupportedMarker(SchemaContext, Seq<char>),
    UnknownKey(SchemaContext, Seq<char>),
    NoArchitecture,
    InitializersNotArray,
    InitializerMissingKind,
    UnsupportedInitializer(Seq<char>),
    InitializerMissingField,
    UnionIncomplete(Seq<char>),
    FieldMissingName,
    ZeroCount,
    SchemaUnsupportedKind(Seq<char>),
    NestedAggregateMissingName,
    NestedAggregateMissingLayout,
    ByValueUnionIncomplete,
    IrregularSize(usize),
    Arm64ByValueUnion,
    NotQualifiedName,
    NestingLimit(Seq<char>),
    RecursiveCycle(Seq<char>),
    InvalidNumber(RawNumberField),
    SizeLimit(Seq<char>, usize),
    FieldCountLimit(Seq<char>),
    MissingFields,
    FieldCountRange(Seq<char>),
    MissingType,
    MissingTypeKind,
    ExpansionOverflow,
    ExpansionLimit(Seq<char>),
    ByteSizeOverflow,
    LibffiOverflow,
    FieldsOverlap(Seq<char>),
    LibffiLimit(Seq<char>),
    FieldEndOverflow,
    FieldsExceedSize(Seq<char>),
    NestedMissingName(RawDescriptorKind),
    NestedMissingLayout(RawDescriptorKind),
    UnsupportedFieldKind(Seq<char>),
}

impl View for RawDescriptorError {
    type V = RawDescriptorFault;

    open spec fn view(&self) -> RawDescriptorFault {
        match self {
            RawDescriptorError::MissingName => RawDescriptorFault::MissingName,
            RawDescriptorError::MissingArchitecture(a) => RawDescriptorFault::MissingArchitecture(*a),
            RawDescriptorError::NotObject(c) => RawDescriptorFault::NotObject(*c),
            RawDescriptorError::UnsupportedMarker(c, k) => RawDescriptorFault::UnsupportedMarker(*c, k@),
            RawDescriptorError::UnknownKey(c, k) => RawDescriptorFault::UnknownKey(*c, k@),
            RawDescriptorError::NoArchitecture => RawDescriptorFault::NoArchitecture,
            RawDescriptorError::InitializersNotArray => RawDescriptorFault::InitializersNotArray,
            RawDescriptorError::InitializerMissingKind => RawDescriptorFault::InitializerMissingKind,
            RawDescriptorError::UnsupportedInitializer(k) => RawDescriptorFault::UnsupportedInitializer(k@),
            RawDescriptorError::InitializerMissingField => RawDescriptorFault::InitializerMissingField,
            RawDescriptorError::UnionIncomplete(n) => RawDescriptorFault::UnionIncomplete(n@),
            RawDescriptorError::FieldMissingName => RawDescriptorFault::FieldMissingName,
            RawDescriptorError::ZeroCount => RawDescriptorFault::ZeroCount,
            RawDescriptorError::SchemaUnsupportedKind(k) => RawDescriptorFault::SchemaUnsupportedKind(k@),
            RawDescriptorError::NestedAggregateMissingName => RawDescriptorFault::NestedAggregateMissingName,
            RawDescriptorError::NestedAggregateMissingLayout => RawDescriptorFault::NestedAggregateMissingLayout,
            RawDescriptorError::ByValueUnionIncomplete => RawDescriptorFault::ByValueUnionIncomplete,
            RawDescriptorError::IrregularSize(s) => RawDescriptorFault::IrregularSize(*s),
            RawDescriptorError::Arm64ByValueUnion => RawDescriptorFault::Arm64ByValueUnion,
            RawDescriptorError::NotQualifiedName => RawDescriptorFault::NotQualifiedName,
            RawDescriptorError::NestingLimit(n) => RawDescriptorFault::NestingLimit(n@),
            RawDescriptorError::RecursiveCycle(n) => RawDescriptorFault::RecursiveCycle(n@),
            RawDescriptorError::InvalidNumber(f) => RawDescriptorFault::InvalidNumber(*f),
            RawDescriptorError::SizeLimit(n, s) => RawDescriptorFault::SizeLimit(n@, *s),
            RawDescriptorError::FieldCountLimit(n) => RawDescriptorFault::FieldCountLimit(n@),
            RawDescriptorError::MissingFields => RawDescriptorFault::MissingFields,
            RawDescriptorError::FieldCountRange(n) => RawDescriptorFault::FieldCountRange(n@),
            RawDescriptorError::MissingType => RawDescriptorFault::MissingType,
            RawDescriptorError::MissingTypeKind => RawDescriptorFault::MissingTypeKind,
            RawDescriptorError::ExpansionOverflow => RawDescriptorFault::ExpansionOverflow,
            RawDescriptorError::ExpansionLimit(n) => RawDescriptorFault::ExpansionLimit(n@),
            RawDescriptorError::ByteSizeOverflow => RawDescriptorFault::ByteSizeOverflow,
            RawDescriptorError::LibffiOverflow => RawDescriptorFault::LibffiOverflow,
            RawDescriptorError::FieldsOverlap(n) => RawDescriptorFault::FieldsOverlap(n@),
            RawDescriptorError::LibffiLimit(n) => RawDescriptorFault::LibffiLimit(n@),
            RawDescriptorError::FieldEndOverflow => RawDescriptorFault::FieldEndOverflow,
            RawDescriptorError::FieldsExceedSize(n) => RawDescriptorFault::FieldsExceedSize(n@),
            RawDescriptorError::NestedMissingName(k) => RawDescriptorFault::NestedMissingName(*k),
            RawDescriptorError::NestedMissingLayout(k) => RawDescriptorFault::NestedMissingLayout(*k),
            RawDescriptorError::UnsupportedFieldKind(k) => RawDescriptorFault::UnsupportedFieldKind(k@),
        }
    }
}

pub open spec fn view_result<T>(r: Result<T, RawDescriptorError>) -> Result<T, RawDescriptorFault> {
    match r {
        Ok(v) => Ok(v),
        Err(e) => Err(e@),
    }
}

pub open spec fn names(stack: Seq<String>) -> Seq<Seq<char>> {
    stack.map_values(|s: String| s@)
}

// ---------------------------------------------------------------------
// Qualified names
// ---------------------------------------------------------------------

/// The characters with the Unicode `White_Space` property.
#[verifier::opaque]
pub open spec fn spec_is_white_space(c: char) -> bool {
    ||| ('\u{9}' <= c && c <= '\u{d}')
    ||| c == ' '
    ||| c == '\u{85}'
    ||| c == '\u{a0}'
    ||| c == '\u{1680}'
    ||| ('\u{2000}' <= c && c <= '\u{200a}')
    ||| c == '\u{2028}'
    ||| c == '\u{2029}'
    ||| c == '\u{202f}'
    ||| c == '\u{205f}'
    ||| c == '\u{3000}'
}

/// Whether `c` is Unicode white space (what `char::is_whitespace` decides).
pub fn is_white_space(c: char) -> (r: bool)
    ensures
        r == spec_is_white_space(c),
{
    reveal(spec_is_white_space);
    ('\u{9}' <= c && c <= '\u{d}') || c == ' ' || c == '\u{85}' || c == '\u{a0}' || c == '\u{1680}'
        || ('\u{2000}' <= c && c <= '\u{200a}') || c == '\u{2028}' || c == '\u{2029}'
        || c == '\u{202f}' || c == '\u{205f}' || c == '\u{3000}'
}

/// The constraint a qualified identity puts on its character at `i`: a dot
/// separates two nonempty segments, and a segment neither starts nor ends
/// with white space.
pub open spec fn qualified_char_ok(name: Seq<char>, i: int) -> bool {
    if name[i] == '.' {
        0 < i && i + 1 < name.len() && name[i - 1] != '.'
    } else {
        ((i == 0 || name[i - 1] == '.') ==> !spec_is_white_space(name[i]))
        && ((i + 1 == name.len() || name[i + 1] == '.') ==> !spec_is_white_space(name[i]))
    }
}

/// A qualified identity: at least two dot-separated segments, none empty and
/// none with leading or trailing white space.
pub open spec fn spec_qualified_name(name: Seq<char>) -> bool {
    &&& exists|i: int| 0 <= i < name.len() && name[i] == '.'
    &&& forall|i: int| 0 <= i < name.len() ==> #[trigger] qualified_char_ok(name, i)
}

/// Checks that a raw aggregate identity is a qualified dot-separated name.
pub fn validate_raw_qualified_name(name: &str) -> (r: Result<(), RawDescriptorError>)
    ensures
        r is Ok <==> spec_qualified_name(name@),
        r matches Err(e) ==> e is NotQualifiedName,
{
    let n = name.unicode_len();
    let ghost s = name@;
    let mut i: usize = 0;
    let mut seen_dot = false;
    while i < n
        invariant
            n == s.len(),
            s == name@,
            0 <= i <= n,
            seen_dot <==> exists|j: int| 0 <= j < i && s[j] == '.',
            forall|j: int| 0 <= j < i ==> #[trigger] qualified_char_ok(s, j),
        decreases n - i,
    {
        let c = name.get_char(i);
        let prev_dot = i > 0 && name.get_char(i - 1) == '.';
        let next_dot = i + 1 < n && name.get_char(i + 1) == '.';
        let white = is_white_space(c);
        if c == '.' {
            if i == 0 || i + 1 >= n || prev_dot {
                assert(!qualified_char_ok(s, i as int));
                return Err(RawDescriptorError::NotQualifiedName);
            }
            seen_dot = true;
        } else if (i == 0 || prev_dot || i + 1 == n || next_dot) && white {
            assert(!qualified_char_ok(s, i as int));
            return Err(RawDescriptorError::NotQualifiedName);
        }
        assert(qualified_char_ok(s, i as int));
        i = i + 1;
    }
    if !seen_dot {
        return Err(RawDescriptorError::NotQualifiedName);
    }
    Ok(())
}

// ---------------------------------------------------------------------
// Numbers
// ---------------------------------------------------------------------

/// `value[key]` as a pointer-width integer.
pub open spec fn spec_descriptor_usize(value: JsonValue, field: RawNumberField) -> Result<usize, RawDescriptorFault> {
    match spec_get(value, spec_number_key(field)) {
        Some(v) => match spec_as_u64(v) {
            Some(n) => if n <= usize::MAX { Ok(n as usize) } else { Err(RawDescriptorFault::InvalidNumber(field)) },
            None => Err(RawDescriptorFault::InvalidNumber(field)),
        },
        None => Err(RawDescriptorFault::InvalidNumber(field)),
    }
}

/// Reads a non-negative integer entry that fits in a pointer-width integer.
pub fn raw_descriptor_usize(value: &JsonValue, field: RawNumberField) -> (r: Result<usize, RawDescriptorError>)
    ensures
        view_result(r) == spec_descriptor_usize(*value, field),
{
    match value.get(number_key(field)) {
        Some(v) => match v.as_u64() {
            Some(n) => if n <= usize::MAX as u64 { Ok(n as usize) } else { Err(RawDescriptorError::InvalidNumber(field)) },
            None => Err(RawDescriptorError::InvalidNumber(field)),
        },
        None => Err(RawDescriptorError::InvalidNumber(field)),
    }
}

// ---------------------------------------------------------------------
// Layout limits
// ---------------------------------------------------------------------

/// A struct field's placement: byte offset, byte size and libffi elements.
pub type FieldExtent = (usize, usize, usize);

pub open spec fn field_metrics(size: int, expanded_fields: int, libffi_elements: int) -> RawFieldMetrics {
    RawFieldMetrics {
        size: size as usize,
        expanded_fields: expanded_fields as usize,
        libffi_elements: libffi_elements as usize,
    }
}

/// The size of a pointer-width scalar.
pub open spec fn pointer_width() -> int {
    (usize::BITS / 8) as int
}

/// Checks the identity, nesting depth and recursion of one aggregate, then
/// its layout with the aggregate pushed on `stack`.
pub open spec fn spec_layout_limits(
    name: Seq<char>,
    layout: JsonValue,
    kind: RawDescriptorKind,
    stack: Seq<Seq<char>>,
) -> Result<RawAggregateMetrics, RawDescriptorFault>
    decreases layout, 4int, 0int,
{
    if !spec_qualified_name(name) {
        Err(RawDescriptorFault::NotQualifiedName)
    } else if stack.len() >= RAW_MAX_AGGREGATE_NESTING_DEPTH {
        Err(RawDescriptorFault::NestingLimit(name))
    } else if stack.contains(name) {
        Err(RawDescriptorFault::RecursiveCycle(name))
    } else {
        spec_layout_limits_body(name, layout, kind, stack.push(name))
    }
}

pub open spec fn spec_layout_limits_body(
    name: Seq<char>,
    layout: JsonValue,
    kind: RawDescriptorKind,
    stack: Seq<Seq<char>>,
) -> Result<RawAggregateMetrics, RawDescriptorFault>
    decreases layout, 3int, 0int,
{
    match spec_descriptor_usize(layout, RawNumberField::Size) {
        Err(e) => Err(e),
        Ok(size) => if size > RAW_MAX_AGGREGATE_BYTE_SIZE {
            Err(RawDescriptorFault::SizeLimit(name, size))
        } else {
            match spec_get_array(layout, "fields"@) {
                None => Err(RawDescriptorFault::MissingFields),
                Some(fields) => if fields.len() > RAW_MAX_FIXED_FIELD_EXPANSION {
                    Err(RawDescriptorFault::FieldCountLimit(name))
                } else {
                    match spec_fields_pass(name, layout, kind, stack, 0, 0, seq![]) {
                        Err(e) => Err(e),
                        Ok((expanded, extents)) => if kind == RawDescriptorKind::Union {
                            Ok(RawAggregateMetrics { size, expanded_fields: expanded, libffi_elements: 0 })
                        } else {
                            spec_struct_tail(name, size, expanded, sort_by_offset(extents))
                        },
                    }
                },
            }
        },
    }
}

/// Walks the fields from index `i`, accumulating the fixed-field expansion and,
/// for structs, each field's extent.
pub open spec fn spec_fields_pass(
    name: Seq<char>,
    layout: JsonValue,
    kind: RawDescriptorKind,
    stack: Seq<Seq<char>>,
    i: int,
    expanded: int,
    extents: Seq<FieldExtent>,
) -> Result<(usize, Seq<FieldExtent>), RawDescriptorFault>
    decreases layout, 2int, spec_get_array(layout, "fields"@)->0.len() - i,
{
    let fields = spec_get_array(layout, "fields"@)->0;
    if !(spec_get_array(layout, "fields"@) is Some) || i < 0 || i >= fields.len() {
        Ok((expanded as usize, extents))
    } else {
        let field = fields[i];
        match spec_descriptor_usize(field, RawNumberField::Count) {
            Err(e) => Err(e),
            Ok(count) => if count == 0 || count > RAW_MAX_FIXED_FIELD_EXPANSION {
                Err(RawDescriptorFault::FieldCountRange(name))
            } else {
                match spec_get(field, "type"@) {
                    None => Err(RawDescriptorFault::MissingType),
                    Some(typ) => {
                        proof {
                            lemma_get_decreases(layout, "fields"@);
                            lemma_array_item_decreases(spec_get(layout, "fields"@)->0, i);
                            lemma_get_decreases(field, "type"@);
                        }
                        match spec_field_metrics(typ, stack) {
                            Err(e) => Err(e),
                            Ok(m) => {
                                let fe = m.expanded_fields * count;
                                if fe > usize::MAX || expanded + fe > usize::MAX {
                                    Err(RawDescriptorFault::ExpansionOverflow)
                                } else if expanded + fe > RAW_MAX_FIXED_FIELD_EXPANSION {
                                    Err(RawDescriptorFault::ExpansionLimit(name))
                                } else if kind == RawDescriptorKind::Struct {
                                    match spec_descriptor_usize(field, RawNumberField::Offset) {
                                        Err(e) => Err(e),
                                        Ok(offset) => if m.size * count > usize::MAX {
                                            Err(RawDescriptorFault::ByteSizeOverflow)
                                        } else if m.libffi_elements * count > usize::MAX {
                                            Err(RawDescriptorFault::LibffiOverflow)
                                        } else {
                                            spec_fields_pass(name, layout, kind, stack, i + 1, expanded + fe,
                                                extents.push((offset, (m.size * count) as usize, (m.libffi_elements * count) as usize)))
                                        },
                                    }
                                } else {
                                    spec_fields_pass(name, layout, kind, stack, i + 1, expanded + fe, extents)
                                }
                            },
                        }
                    },
                }
            },
        }
    }
}

/// What one field type contributes: fixed scalar sizes, or the metrics of a
/// nested aggregate (a union counts one libffi element per byte).
pub open spec fn spec_field_metrics(typ: JsonValue, stack: Seq<Seq<char>>) -> Result<RawFieldMetrics, RawDescriptorFault>
    decreases typ, 1int, 0int,
{
    match spec_get_str(typ, "kind"@) {
        None => Err(RawDescriptorFault::MissingTypeKind),
        Some(k) => if k == "i8"@ || k == "u8"@ {
            Ok(field_metrics(1, 1, 1))
        } else if k == "i16"@ || k == "u16"@ {
            Ok(field_metrics(2, 1, 1))
        } else if k == "i32"@ || k == "u32"@ || k == "f32"@ {
            Ok(field_metrics(4, 1, 1))
        } else if k == "i64"@ || k == "u64"@ || k == "f64"@ {
            Ok(field_metrics(8, 1, 1))
        } else if k == "isize"@ || k == "usize"@ || k == "pointer"@ {
            Ok(field_metrics(pointer_width(), 1, 1))
        } else if k == "guid"@ {
            Ok(field_metrics(16, 1, 11))
        } else if k == "struct"@ || k == "union"@ {
            let nested = if k == "struct"@ { RawDescriptorKind::Struct } else { RawDescriptorKind::Union };
            match spec_get_str(typ, "name"@) {
                None => Err(RawDescriptorFault::NestedMissingName(nested)),
                Some(n) => match spec_get(typ, "layout"@) {
                    None => Err(RawDescriptorFault::NestedMissingLayout(nested)),
                    Some(l) => {
                        proof { lemma_get_decreases(typ, "layout"@); }
                        match spec_layout_limits(n, l, nested, stack) {
                            Err(e) => Err(e),
                            Ok(m) => Ok(field_metrics(
                                m.size as int,
                                m.expanded_fields as int,
                                if nested == RawDescriptorKind::Struct { m.libffi_elements as int } else { m.size as int },
                            )),
                        }
                    },
                },
            }
        } else {
            Err(RawDescriptorFault::UnsupportedFieldKind(k))
        },
    }
}

/// A field accepted as one scalar of `size` bytes: one fixed field, one
/// libffi element.
pub open spec fn one_scalar_of_size(r: Result<RawFieldMetrics, RawDescriptorFault>, size: int) -> bool {
    &&& r is Ok
    &&& r->Ok_0.size == size
    &&& r->Ok_0.expanded_fields == 1
    &&& r->Ok_0.libffi_elements == 1
}

/// Each scalar field kind takes its C size in the layout limits, as one
/// fixed field and one libffi element: `i8`/`u8` 1 byte, `i16`/`u16` 2,
/// `i32`/`u32`/`f32` 4, `i64`/`u64`/`f64` 8, and pointer-sized kinds the
/// pointer width.
pub proof fn lemma_scalar_field_c_sizes(typ: JsonValue, stack: Seq<Seq<char>>)
    ensures
        spec_get_str(typ, "kind"@) matches Some(k) ==> {
            &&& (k == "i8"@ || k == "u8"@) ==> one_scalar_of_size(spec_field_metrics(typ, stack), 1)
            &&& (k == "i16"@ || k == "u16"@) ==> one_scalar_of_size(spec_field_metrics(typ, stack), 2)
            &&& (k == "i32"@ || k == "u32"@ || k == "f32"@) ==> one_scalar_of_size(spec_field_metrics(typ, stack), 4)
            &&& (k == "i64"@ || k == "u64"@ || k == "f64"@) ==> one_scalar_of_size(spec_field_metrics(typ, stack), 8)
            &&& (k == "isize"@ || k == "usize"@ || k == "pointer"@)
                ==> one_scalar_of_size(spec_field_metrics(typ, stack), (usize::BITS / 8) as int)
            &&& k == "guid"@ ==> (spec_field_metrics(typ, stack) is Ok
                && spec_field_metrics(typ, stack)->Ok_0.size == 16
                && spec_field_metrics(typ, stack)->Ok_0.expanded_fields == 1
                && spec_field_metrics(typ, stack)->Ok_0.libffi_elements == 11)
        },
{
    reveal_strlit("i8");
    reveal_strlit("u8");
    reveal_strlit("i16");
    reveal_strlit("u16");
    reveal_strlit("i32");
    reveal_strlit("u32");
    reveal_strlit("f32");
    reveal_strlit("i64");
    reveal_strlit("u64");
    reveal_strlit("f64");
    reveal_strlit("isize");
    reveal_strlit("usize");
    reveal_strlit("pointer");
    reveal_strlit("guid");
    if let Some(k) = spec_get_str(typ, "kind"@) {
        if k == "i8"@ || k == "u8"@ { assert(one_scalar_of_size(spec_field_metrics(typ, stack), 1)); }
        if k == "i16"@ || k == "u16"@ {
            assert(k.len() == 3 && k[1] == '1');
            assert(!(k == "i8"@ || k == "u8"@));
            assert(one_scalar_of_size(spec_field_metrics(typ, stack), 2));
        }
        if k == "i32"@ || k == "u32"@ || k == "f32"@ {
            assert(k.len() == 3 && k[1] == '3');
            assert(!(k == "i8"@ || k == "u8"@));
            assert(!(k == "i16"@ || k == "u16"@));
            assert(one_scalar_of_size(spec_field_metrics(typ, stack), 4));
        }
        if k == "i64"@ || k == "u64"@ || k == "f64"@ {
            assert(k.len() == 3 && k[1] == '6');
            assert(!(k == "i8"@ || k == "u8"@));
            assert(!(k == "i16"@ || k == "u16"@));
            assert(!(k == "i32"@ || k == "u32"@ || k == "f32"@));
            assert(one_scalar_of_size(spec_field_metrics(typ, stack), 8));
        }
        if k == "isize"@ || k == "usize"@ || k == "pointer"@ {
            assert(k.len() >= 5);
            assert(!(k == "i8"@ || k == "u8"@));
            assert(!(k == "i16"@ || k == "u16"@));
            assert(!(k == "i32"@ || k == "u32"@ || k == "f32"@));
            assert(!(k == "i64"@ || k == "u64"@ || k == "f64"@));
            assert(one_scalar_of_size(spec_field_metrics(typ, stack), (usize::BITS / 8) as int));
        }
        if k == "guid"@ {
            assert(k.len() == 4);
            assert(!(k == "i8"@ || k == "u8"@));
            assert(!(k == "i16"@ || k == "u16"@));
            assert(!(k == "i32"@ || k == "u32"@ || k == "f32"@));
            assert(!(k == "i64"@ || k == "u64"@ || k == "f64"@));
            assert(!(k == "isize"@ || k == "usize"@ || k == "pointer"@));
        }
    }
}

/// Inserts `e` after every extent whose offset is not greater than its own.
pub open spec fn insert_by_offset(sorted: Seq<FieldExtent>, e: FieldExtent) -> Seq<FieldExtent>
    decreases sorted.len(),
{
    if sorted.len() == 0 {
        seq![e]
    } else if e.0 < sorted.last().0 {
        insert_by_offset(sorted.drop_last(), e).push(sorted.last())
    } else {
        sorted.push(e)
    }
}

/// The extents ordered by offset, ties kept in field order.
pub open spec fn sort_by_offset(s: Seq<FieldExtent>) -> Seq<FieldExtent>
    decreases s.len(),
{
    if s.len() == 0 {
        seq![]
    } else {
        insert_by_offset(sort_by_offset(s.drop_last()), s.last())
    }
}

/// Walks the ordered extents from `cursor`, counting padding bytes and field
/// elements; fails on overlap or when the count passes its limit.
pub open spec fn spec_extent_walk(name: Seq<char>, s: Seq<FieldExtent>, cursor: int, elements: int)
    -> Result<(int, int), RawDescriptorFault>
    decreases s.len(),
{
    if s.len() == 0 {
        Ok((cursor, elements))
    } else {
        let (offset, size, ffi) = s[0];
        if offset < cursor {
            Err(RawDescriptorFault::FieldsOverlap(name))
        } else if elements + (offset - cursor) > usize::MAX || elements + (offset - cursor) + ffi > usize::MAX {
            Err(RawDescriptorFault::LibffiOverflow)
        } else if elements + (offset - cursor) + ffi > RAW_MAX_LIBFFI_ELEMENTS {
            Err(RawDescriptorFault::LibffiLimit(name))
        } else if offset + size > usize::MAX {
            Err(RawDescriptorFault::FieldEndOverflow)
        } else {
            spec_extent_walk(name, s.drop_first(), offset + size, elements + (offset - cursor) + ffi)
        }
    }
}

pub open spec fn spec_struct_tail(name: Seq<char>, size: usize, expanded: usize, sorted: Seq<FieldExtent>)
    -> Result<RawAggregateMetrics, RawDescriptorFault>
{
    match spec_extent_walk(name, sorted, 0, 0) {
        Err(e) => Err(e),
        Ok((cursor, elements)) => if size < cursor {
            Err(RawDescriptorFault::FieldsExceedSize(name))
        } else if elements + (size - cursor) > usize::MAX {
            Err(RawDescriptorFault::LibffiOverflow)
        } else if elements + (size - cursor) > RAW_MAX_LIBFFI_ELEMENTS {
            Err(RawDescriptorFault::LibffiLimit(name))
        } else {
            Ok(RawAggregateMetrics {
                size,
                expanded_fields: expanded,
                libffi_elements: (elements + (size - cursor)) as usize,
            })
        },
    }
}

/// The fields pass never accumulates more fixed fields than the limit.
proof fn lemma_fields_pass_bound(
    name: Seq<char>,
    layout: JsonValue,
    kind: RawDescriptorKind,
    stack: Seq<Seq<char>>,
    i: int,
    expanded: int,
    extents: Seq<FieldExtent>,
)
    requires
        0 <= expanded <= RAW_MAX_FIXED_FIELD_EXPANSION,
    ensures
        spec_fields_pass(name, layout, kind, stack, i, expanded, extents) matches Ok((e, _))
            ==> e <= RAW_MAX_FIXED_FIELD_EXPANSION,
    decreases spec_get_array(layout, "fields"@)->0.len() - i,
{
    let fields = spec_get_array(layout, "fields"@)->0;
    if !(spec_get_array(layout, "fields"@) is Some) || i < 0 || i >= fields.len() {
    } else {
        let field = fields[i];
        match spec_descriptor_usize(field, RawNumberField::Count) {
            Err(_) => {},
            Ok(count) => if count == 0 || count > RAW_MAX_FIXED_FIELD_EXPANSION {
            } else {
                match spec_get(field, "type"@) {
                    None => {},
                    Some(typ) => match spec_field_metrics(typ, stack) {
                        Err(_) => {},
                        Ok(m) => {
                            let fe = m.expanded_fields * count;
                            if fe > usize::MAX || expanded + fe > usize::MAX {
                            } else if expanded + fe > RAW_MAX_FIXED_FIELD_EXPANSION {
                            } else if kind == RawDescriptorKind::Struct {
                                match spec_descriptor_usize(field, RawNumberField::Offset) {
                                    Err(_) => {},
                                    Ok(offset) => if m.size * count > usize::MAX {
                                    } else if m.libffi_elements * count > usize::MAX {
                                    } else {
                                        lemma_fields_pass_bound(name, layout, kind, stack, i + 1, expanded + fe,
                                            extents.push((offset, (m.size * count) as usize, (m.libffi_elements * count) as usize)));
                                    },
                                }
                            } else {
                                lemma_fields_pass_bound(name, layout, kind, stack, i + 1, expanded + fe, extents);
                            }
                        },
                    },
                }
            },
        }
    }
}

/// The extent walk never counts a negative number of elements.
proof fn lemma_extent_walk_nonnegative(name: Seq<char>, s: Seq<FieldExtent>, cursor: int, elements: int)
    requires
        elements >= 0,
    ensures
        spec_extent_walk(name, s, cursor, elements) matches Ok((_, e)) ==> e >= 0,
    decreases s.len(),
{
    if s.len() > 0 {
        let (offset, size, ffi) = s[0];
        if offset >= cursor {
            lemma_extent_walk_nonnegative(name, s.drop_first(), offset + size, elements + (offset - cursor) + ffi);
        }
    }
}

/// An accepted extent walk saw fields that start at or after `cursor`, do
/// not overlap each other and end at or before the final cursor.
proof fn lemma_extent_walk_disjoint(name: Seq<char>, s: Seq<FieldExtent>, cursor: int, elements: int)
    requires
        spec_extent_walk(name, s, cursor, elements) is Ok,
    ensures
        ({
            let c = spec_extent_walk(name, s, cursor, elements)->Ok_0.0;
            &&& cursor <= c
            &&& forall|i: int| 0 <= i < s.len() ==> cursor <= #[trigger] s[i].0 && s[i].0 + s[i].1 <= c
            &&& forall|i: int, j: int| 0 <= i < j < s.len() ==> #[trigger] s[i].0 + s[i].1 <= #[trigger] s[j].0
        }),
    decreases s.len(),
{
    if s.len() > 0 {
        let (offset, size, ffi) = s[0];
        let rest = s.drop_first();
        let next = offset + size;
        let e2 = elements + (offset - cursor) + ffi;
        lemma_extent_walk_disjoint(name, rest, next, e2);
        let c = spec_extent_walk(name, s, cursor, elements)->Ok_0.0;
        assert(c == spec_extent_walk(name, rest, next, e2)->Ok_0.0);
        assert forall|i: int| 0 <= i < s.len() implies cursor <= #[trigger] s[i].0 && s[i].0 + s[i].1 <= c by {
            if i > 0 {
                assert(s[i] == rest[i - 1]);
            }
        }
        assert forall|i: int, j: int| 0 <= i < j < s.len() implies #[trigger] s[i].0 + s[i].1 <= #[trigger] s[j].0 by {
            assert(s[j] == rest[j - 1]);
            if i > 0 {
                assert(s[i] == rest[i - 1]);
            }
        }
    }
}

/// In an accepted struct, the fields ordered by offset do not overlap, and
/// every field ends within the struct's size.
pub proof fn lemma_accepted_struct_fields_disjoint(name: Seq<char>, size: usize, expanded: usize, sorted: Seq<FieldExtent>)
    requires
        spec_struct_tail(name, size, expanded, sorted) is Ok,
    ensures
        forall|i: int, j: int| 0 <= i < j < sorted.len() ==> #[trigger] sorted[i].0 + sorted[i].1 <= #[trigger] sorted[j].0,
        forall|i: int| 0 <= i < sorted.len() ==> #[trigger] sorted[i].0 + sorted[i].1 <= size,
{
    lemma_extent_walk_disjoint(name, sorted, 0, 0);
}

/// Two extents occupy disjoint byte ranges.
pub open spec fn extents_disjoint(a: FieldExtent, b: FieldExtent) -> bool {
    a.0 + a.1 <= b.0 || b.0 + b.1 <= a.0
}

/// Every two extents at distinct positions are disjoint.
pub open spec fn pairwise_disjoint(s: Seq<FieldExtent>) -> bool {
    forall|i: int, j: int| 0 <= i < s.len() && 0 <= j < s.len() && i != j
        ==> extents_disjoint(#[trigger] s[i], #[trigger] s[j])
}

/// Inserting puts `e` at one position and keeps the others in order.
proof fn lemma_insert_shape(t: Seq<FieldExtent>, e: FieldExtent) -> (k: int)
    ensures
        0 <= k <= t.len(),
        insert_by_offset(t, e) == t.take(k) + seq![e] + t.skip(k),
    decreases t.len(),
{
    if t.len() == 0 {
        assert(insert_by_offset(t, e) =~= t.take(0) + seq![e] + t.skip(0));
        0
    } else if e.0 < t.last().0 {
        let td = t.drop_last();
        let k = lemma_insert_shape(td, e);
        assert(insert_by_offset(t, e) =~= t.take(k) + seq![e] + t.skip(k));
        k
    } else {
        let k = t.len() as int;
        assert(insert_by_offset(t, e) =~= t.take(k) + seq![e] + t.skip(k));
        k
    }
}

/// Sorting keeps every extent.
proof fn lemma_sort_keeps(s: Seq<FieldExtent>, x: FieldExtent)
    requires
        s.contains(x),
    ensures
        sort_by_offset(s).contains(x),
    decreases s.len(),
{
    let sd = s.drop_last();
    let t = sort_by_offset(sd);
    let k = lemma_insert_shape(t, s.last());
    let u = t.take(k) + seq![s.last()] + t.skip(k);
    if x == s.last() {
        assert(u[k] == x);
    } else {
        let i = choose|i: int| 0 <= i < s.len() && s[i] == x;
        assert(sd[i] == x);
        lemma_sort_keeps(sd, x);
        let m = choose|m: int| 0 <= m < t.len() && t[m] == x;
        if m < k {
            assert(u[m] == x);
        } else {
            assert(u[m + 1] == x);
        }
    }
}

/// Extents that are pairwise disjoint with `e` inserted among them were
/// pairwise disjoint before, and each is disjoint from `e`.
proof fn lemma_pairwise_insert(t: Seq<FieldExtent>, e: FieldExtent, k: int)
    requires
        0 <= k <= t.len(),
        pairwise_disjoint(t.take(k) + seq![e] + t.skip(k)),
    ensures
        pairwise_disjoint(t),
        forall|m: int| 0 <= m < t.len() ==> extents_disjoint(e, #[trigger] t[m]),
{
    let u = t.take(k) + seq![e] + t.skip(k);
    assert forall|i: int, j: int| 0 <= i < t.len() && 0 <= j < t.len() && i != j
        implies extents_disjoint(#[trigger] t[i], #[trigger] t[j]) by {
        let ui = if i < k { i } else { i + 1 };
        let uj = if j < k { j } else { j + 1 };
        assert(u[ui] == t[i]);
        assert(u[uj] == t[j]);
        assert(extents_disjoint(u[ui], u[uj]));
    }
    assert forall|m: int| 0 <= m < t.len() implies extents_disjoint(e, #[trigger] t[m]) by {
        let um = if m < k { m } else { m + 1 };
        assert(u[um] == t[m]);
        assert(u[k] == e);
        assert(extents_disjoint(u[k], u[um]));
    }
}

/// If the sorted extents are pairwise disjoint, so are the extents in
/// their first order.
proof fn lemma_sorted_disjoint_unsorted(s: Seq<FieldExtent>)
    requires
        pairwise_disjoint(sort_by_offset(s)),
    ensures
        pairwise_disjoint(s),
    decreases s.len(),
{
    if s.len() > 0 {
        let sd = s.drop_last();
        let e = s.last();
        let t = sort_by_offset(sd);
        let k = lemma_insert_shape(t, e);
        lemma_pairwise_insert(t, e, k);
        lemma_sorted_disjoint_unsorted(sd);
        assert forall|m: int| 0 <= m < sd.len() implies extents_disjoint(e, #[trigger] sd[m]) by {
            assert(sd.contains(sd[m]));
            lemma_sort_keeps(sd, sd[m]);
            let p = choose|p: int| 0 <= p < t.len() && t[p] == sd[m];
            assert(extents_disjoint(e, t[p]));
        }
        assert forall|i: int, j: int| 0 <= i < s.len() && 0 <= j < s.len() && i != j
            implies extents_disjoint(#[trigger] s[i], #[trigger] s[j]) by {
            if i < sd.len() && j < sd.len() {
                assert(s[i] == sd[i] && s[j] == sd[j]);
                assert(extents_disjoint(sd[i], sd[j]));
            } else if i == sd.len() {
                assert(s[j] == sd[j]);
                assert(extents_disjoint(e, sd[j]));
            } else {
                assert(s[i] == sd[i]);
                assert(extents_disjoint(e, sd[i]));
            }
        }
    }
}

/// In an accepted struct every two fields occupy disjoint byte ranges and
/// every field ends within the struct's size, whatever order the fields
/// were listed in.
pub proof fn lemma_accepted_struct_fields_never_overlap(name: Seq<char>, size: usize, expanded: usize, extents: Seq<FieldExtent>)
    requires
        spec_struct_tail(name, size, expanded, sort_by_offset(extents)) is Ok,
    ensures
        pairwise_disjoint(extents),
        forall|i: int| 0 <= i < extents.len() ==> #[trigger] extents[i].0 + extents[i].1 <= size,
{
    let sorted = sort_by_offset(extents);
    lemma_accepted_struct_fields_disjoint(name, size, expanded, sorted);
    assert(pairwise_disjoint(sorted)) by {
        assert forall|i: int, j: int| 0 <= i < sorted.len() && 0 <= j < sorted.len() && i != j
            implies extents_disjoint(#[trigger] sorted[i], #[trigger] sorted[j]) by {
            if i < j {
                assert(sorted[i].0 + sorted[i].1 <= sorted[j].0);
            } else {
                assert(sorted[j].0 + sorted[j].1 <= sorted[i].0);
            }
        }
    }
    lemma_sorted_disjoint_unsorted(extents);
    assert forall|i: int| 0 <= i < extents.len() implies #[trigger] extents[i].0 + extents[i].1 <= size by {
        assert(extents.contains(extents[i]));
        lemma_sort_keeps(extents, extents[i]);
        let p = choose|p: int| 0 <= p < sorted.len() && sorted[p] == extents[i];
        assert(sorted[p].0 + sorted[p].1 <= size);
    }
}

/// Every aggregate that passes the limits has a qualified name, is at most
/// 1 MiB, expands to at most 65 536 fixed fields and (as a struct) to at
/// most 65 536 libffi elements, padding included.
pub proof fn lemma_accepted_layout_within_limits(
    name: Seq<char>,
    layout: JsonValue,
    kind: RawDescriptorKind,
    stack: Seq<Seq<char>>,
)
    requires
        spec_layout_limits(name, layout, kind, stack) is Ok,
    ensures
        spec_qualified_name(name),
        !stack.contains(name),
        stack.len() < RAW_MAX_AGGREGATE_NESTING_DEPTH,
        ({
            let m = spec_layout_limits(name, layout, kind, stack)->Ok_0;
            &&& m.size <= RAW_MAX_AGGREGATE_BYTE_SIZE
            &&& m.expanded_fields <= RAW_MAX_FIXED_FIELD_EXPANSION
            &&& m.libffi_elements <= RAW_MAX_LIBFFI_ELEMENTS
        }),
{
    let st = stack.push(name);
    assert(spec_layout_limits(name, layout, kind, stack) == spec_layout_limits_body(name, layout, kind, st));
    lemma_fields_pass_bound(name, layout, kind, st, 0, 0, seq![]);
    let size = spec_descriptor_usize(layout, RawNumberField::Size)->Ok_0;
    let pass = spec_fields_pass(name, layout, kind, st, 0, 0, seq![]);
    if kind == RawDescriptorKind::Struct {
        let (expanded, extents) = pass->Ok_0;
        assert(spec_layout_limits_body(name, layout, kind, st) == spec_struct_tail(name, size, expanded, sort_by_offset(extents)));
        lemma_extent_walk_nonnegative(name, sort_by_offset(extents), 0, 0);
    }
}

/// An aggregate that names one of the aggregates it is nested in is
/// refused as a recursive cycle.
pub proof fn lemma_cycle_refused(
    name: Seq<char>,
    layout: JsonValue,
    kind: RawDescriptorKind,
    stack: Seq<Seq<char>>,
)
    requires
        spec_qualified_name(name),
        stack.len() < RAW_MAX_AGGREGATE_NESTING_DEPTH,
        stack.contains(name),
    ensures
        spec_layout_limits(name, layout, kind, stack)
            == Err::<RawAggregateMetrics, RawDescriptorFault>(RawDescriptorFault::RecursiveCycle(name)),
{
}

/// Whether an aggregate with this name is already being validated.
pub fn stack_contains(stack: &Vec<String>, name: &String) -> (r: bool)
    ensures
        r == names(stack@).contains(name@),
{
    let mut i: usize = 0;
    while i < stack.len()
        invariant
            0 <= i <= stack@.len(),
            forall|j: int| 0 <= j < i ==> stack@[j]@ != name@,
        decreases stack@.len() - i,
    {
        if stack[i] == *name {
            assert(names(stack@)[i as int] == name@);
            return true;
        }
        i = i + 1;
    }
    assert forall|j: int| 0 <= j < names(stack@).len() implies names(stack@)[j] != name@ by {
        assert(names(stack@)[j] == stack@[j]@);
    }
    false
}

proof fn lemma_names_push(stack: Seq<String>, s: String)
    ensures
        names(stack.push(s)) == names(stack).push(s@),
{
    assert(names(stack.push(s)) =~= names(stack).push(s@));
}

/// Checks one aggregate's identity, depth and recursion, then its layout
/// limits; `stack` holds the aggregates being validated around it and is
/// left as it was.
pub fn validate_raw_layout_limits(
    name: &String,
    layout: &JsonValue,
    kind: RawDescriptorKind,
    stack: &mut Vec<String>,
) -> (r: Result<RawAggregateMetrics, RawDescriptorError>)
    ensures
        final(stack)@ == old(stack)@,
        view_result(r) == spec_layout_limits(name@, *layout, kind, names(old(stack)@)),
    decreases layout, 4int, 0int,
{
    match validate_raw_qualified_name(name.as_str()) {
        Err(e) => return Err(e),
        Ok(()) => {},
    }
    if stack.len() >= RAW_MAX_AGGREGATE_NESTING_DEPTH {
        return Err(RawDescriptorError::NestingLimit(name.clone()));
    }
    if stack_contains(stack, name) {
        return Err(RawDescriptorError::RecursiveCycle(name.clone()));
    }
    let ghost before = stack@;
    stack.push(name.clone());
    proof { lemma_names_push(before, *name); }
    let result = validate_raw_layout_limits_body(name, layout, kind, stack);
    stack.pop();
    assert(stack@ =~= before);
    result
}

/// Checks the size, field count, fixed-field expansion and (for structs)
/// libffi expansion of one layout.
pub fn validate_raw_layout_limits_body(
    name: &String,
    layout: &JsonValue,
    kind: RawDescriptorKind,
    stack: &mut Vec<String>,
) -> (r: Result<RawAggregateMetrics, RawDescriptorError>)
    ensures
        final(stack)@ == old(stack)@,
        view_result(r) == spec_layout_limits_body(name@, *layout, kind, names(old(stack)@)),
    decreases layout, 3int, 0int,
{
    let size = match raw_descriptor_usize(layout, RawNumberField::Size) {
        Err(e) => return Err(e),
        Ok(size) => size,
    };
    if size > RAW_MAX_AGGREGATE_BYTE_SIZE {
        return Err(RawDescriptorError::SizeLimit(name.clone(), size));
    }
    let fields = match layout.get_array("fields") {
        None => return Err(RawDescriptorError::MissingFields),
        Some(fields) => fields,
    };
    if fields.len() > RAW_MAX_FIXED_FIELD_EXPANSION {
        return Err(RawDescriptorError::FieldCountLimit(name.clone()));
    }
    let ghost st = names(stack@);
    let ghost start = stack@;
    let mut expanded: usize = 0;
    let mut extents: Vec<FieldExtent> = Vec::new();
    let mut i: usize = 0;
    while i < fields.len()
        invariant
            stack@ == start,
            start == old(stack)@,
            st == names(start),
            spec_get_array(*layout, "fields"@) == Some(fields@),
            spec_descriptor_usize(*layout, RawNumberField::Size) == Ok::<usize, RawDescriptorFault>(size),
            size <= RAW_MAX_AGGREGATE_BYTE_SIZE,
            fields@.len() <= RAW_MAX_FIXED_FIELD_EXPANSION,
            0 <= i <= fields@.len(),
            expanded <= RAW_MAX_FIXED_FIELD_EXPANSION,
            spec_fields_pass(name@, *layout, kind, st, 0, 0, seq![])
                == spec_fields_pass(name@, *layout, kind, st, i as int, expanded as int, extents@),
        decreases fields@.len() - i,
    {
        let field = &fields[i];
        let count = match raw_descriptor_usize(field, RawNumberField::Count) {
            Err(e) => return Err(e),
            Ok(count) => count,
        };
        if count == 0 || count > RAW_MAX_FIXED_FIELD_EXPANSION {
            return Err(RawDescriptorError::FieldCountRange(name.clone()));
        }
        let typ = match field.get("type") {
            None => return Err(RawDescriptorError::MissingType),
            Some(typ) => typ,
        };
        proof {
            lemma_get_decreases(*layout, "fields"@);
            lemma_array_item_decreases(spec_get(*layout, "fields"@)->0, i as int);
            lemma_get_decreases(*field, "type"@);
        }
        let m = match raw_field_metrics(typ, stack) {
            Err(e) => return Err(e),
            Ok(m) => m,
        };
        let fe = match m.expanded_fields.checked_mul(count) {
            None => return Err(RawDescriptorError::ExpansionOverflow),
            Some(fe) => fe,
        };
        let total = match expanded.checked_add(fe) {
            None => return Err(RawDescriptorError::ExpansionOverflow),
            Some(total) => total,
        };
        if total > RAW_MAX_FIXED_FIELD_EXPANSION {
            return Err(RawDescriptorError::ExpansionLimit(name.clone()));
        }
        if kind == RawDescriptorKind::Struct {
            let offset = match raw_descriptor_usize(field, RawNumberField::Offset) {
                Err(e) => return Err(e),
                Ok(offset) => offset,
            };
            let field_size = match m.size.checked_mul(count) {
                None => return Err(RawDescriptorError::ByteSizeOverflow),
                Some(v) => v,
            };
            let field_elements = match m.libffi_elements.checked_mul(count) {
                None => return Err(RawDescriptorError::LibffiOverflow),
                Some(v) => v,
            };
            extents.push((offset, field_size, field_elements));
        }
        expanded = total;
        i = i + 1;
    }
    if kind == RawDescriptorKind::Union {
        return Ok(RawAggregateMetrics { size, expanded_fields: expanded, libffi_elements: 0 });
    }
    let sorted = sort_extents_by_offset(&extents);
    struct_tail(name, size, expanded, &sorted)
}

/// Metrics of one field type; nested aggregates are validated in turn.
pub fn raw_field_metrics(typ: &JsonValue, stack: &mut Vec<String>) -> (r: Result<RawFieldMetrics, RawDescriptorError>)
    ensures
        final(stack)@ == old(stack)@,
        view_result(r) == spec_field_metrics(*typ, names(old(stack)@)),
    decreases typ, 1int, 0int,
{
    let kind = match typ.get_str("kind") {
        None => return Err(RawDescriptorError::MissingTypeKind),
        Some(kind) => kind,
    };
    if string_is(kind, "i8") || string_is(kind, "u8") {
        Ok(RawFieldMetrics { size: 1, expanded_fields: 1, libffi_elements: 1 })
    } else if string_is(kind, "i16") || string_is(kind, "u16") {
        Ok(RawFieldMetrics { size: 2, expanded_fields: 1, libffi_elements: 1 })
    } else if string_is(kind, "i32") || string_is(kind, "u32") || string_is(kind, "f32") {
        Ok(RawFieldMetrics { size: 4, expanded_fields: 1, libffi_elements: 1 })
    } else if string_is(kind, "i64") || string_is(kind, "u64") || string_is(kind, "f64") {
        Ok(RawFieldMetrics { size: 8, expanded_fields: 1, libffi_elements: 1 })
    } else if string_is(kind, "isize") || string_is(kind, "usize") || string_is(kind, "pointer") {
        Ok(RawFieldMetrics { size: (usize::BITS / 8) as usize, expanded_fields: 1, libffi_elements: 1 })
    } else if string_is(kind, "guid") {
        Ok(RawFieldMetrics { size: 16, expanded_fields: 1, libffi_elements: 11 })
    } else if string_is(kind, "struct") || string_is(kind, "union") {
        let nested = if string_is(kind, "struct") { RawDescriptorKind::Struct } else { RawDescriptorKind::Union };
        let nested_name = match typ.get_str("name") {
            None => return Err(RawDescriptorError::NestedMissingName(nested)),
            Some(n) => n,
        };
        let nested_layout = match typ.get("layout") {
            None => return Err(RawDescriptorError::NestedMissingLayout(nested)),
            Some(l) => l,
        };
        proof { lemma_get_decreases(*typ, "layout"@); }
        match validate_raw_layout_limits(nested_name, nested_layout, nested, stack) {
            Err(e) => Err(e),
            Ok(m) => Ok(RawFieldMetrics {
                size: m.size,
                expanded_fields: m.expanded_fields,
                libffi_elements: if nested == RawDescriptorKind::Struct { m.libffi_elements } else { m.size },
            }),
        }
    } else {
        Err(RawDescriptorError::UnsupportedFieldKind(kind.clone()))
    }
}

/// Finds where `e` goes in `sorted`: after every extent with an offset not
/// greater than its own.
fn insertion_point(sorted: &Vec<FieldExtent>, e: FieldExtent) -> (p: usize)
    ensures
        p <= sorted@.len(),
        insert_by_offset(sorted@, e) == sorted@.insert(p as int, e),
{
    let mut p = sorted.len();
    assert(sorted@.subrange(0, p as int) == sorted@);
    assert(insert_by_offset(sorted@, e) =~= insert_by_offset(sorted@.subrange(0, p as int), e) + sorted@.subrange(p as int, sorted@.len() as int));
    while p > 0 && sorted[p - 1].0 > e.0
        invariant
            p <= sorted@.len(),
            insert_by_offset(sorted@, e) == insert_by_offset(sorted@.subrange(0, p as int), e) + sorted@.subrange(p as int, sorted@.len() as int),
        decreases p,
    {
        let ghost pre = sorted@.subrange(0, p as int);
        assert(pre.drop_last() == sorted@.subrange(0, p - 1));
        assert(pre.last() == sorted@[p - 1]);
        assert(insert_by_offset(pre, e) == insert_by_offset(sorted@.subrange(0, p - 1), e).push(sorted@[p - 1]));
        assert(sorted@.subrange(p - 1, sorted@.len() as int) == seq![sorted@[p - 1]] + sorted@.subrange(p as int, sorted@.len() as int));
        assert(insert_by_offset(sorted@.subrange(0, p - 1), e).push(sorted@[p - 1]) + sorted@.subrange(p as int, sorted@.len() as int)
            == insert_by_offset(sorted@.subrange(0, p - 1), e) + sorted@.subrange(p - 1, sorted@.len() as int));
        p = p - 1;
    }
    let ghost pre = sorted@.subrange(0, p as int);
    if p > 0 {
        assert(pre.last() == sorted@[p - 1]);
        assert(pre.drop_last().push(pre.last()) == pre);
    }
    assert(insert_by_offset(pre, e) == pre.push(e));
    assert(sorted@.insert(p as int, e) =~= pre.push(e) + sorted@.subrange(p as int, sorted@.len() as int));
    p
}

/// The extents ordered by offset, ties kept in field order.
pub fn sort_extents_by_offset(extents: &Vec<FieldExtent>) -> (r: Vec<FieldExtent>)
    ensures
        r@ == sort_by_offset(extents@),
{
    let mut sorted: Vec<FieldExtent> = Vec::new();
    let mut i: usize = 0;
    while i < extents.len()
        invariant
            0 <= i <= extents@.len(),
            sorted@ == sort_by_offset(extents@.subrange(0, i as int)),
        decreases extents@.len() - i,
    {
        let e = extents[i];
        let p = insertion_point(&sorted, e);
        sorted.insert(p, e);
        assert(extents@.subrange(0, i + 1).drop_last() == extents@.subrange(0, i as int));
        assert(extents@.subrange(0, i + 1).last() == e);
        i = i + 1;
    }
    assert(extents@.subrange(0, extents@.len() as int) == extents@);
    sorted
}

/// Walks the ordered extents and adds the tail padding.
pub fn struct_tail(name: &String, size: usize, expanded: usize, sorted: &Vec<FieldExtent>)
    -> (r: Result<RawAggregateMetrics, RawDescriptorError>)
    ensures
        view_result(r) == spec_struct_tail(name@, size, expanded, sorted@),
{
    let mut cursor: usize = 0;
    let mut elements: usize = 0;
    let mut i: usize = 0;
    assert(sorted@.skip(0) == sorted@);
    while i < sorted.len()
        invariant
            0 <= i <= sorted@.len(),
            elements <= RAW_MAX_LIBFFI_ELEMENTS,
            spec_extent_walk(name@, sorted@, 0, 0)
                == spec_extent_walk(name@, sorted@.skip(i as int), cursor as int, elements as int),
        decreases sorted@.len() - i,
    {
        let (offset, field_size, field_elements) = sorted[i];
        assert(sorted@.skip(i as int)[0] == sorted@[i as int]);
        assert(sorted@.skip(i as int).drop_first() == sorted@.skip(i + 1));
        if offset < cursor {
            return Err(RawDescriptorError::FieldsOverlap(name.clone()));
        }
        let padded = match elements.checked_add(offset - cursor) {
            None => return Err(RawDescriptorError::LibffiOverflow),
            Some(v) => v,
        };
        let next = match padded.checked_add(field_elements) {
            None => return Err(RawDescriptorError::LibffiOverflow),
            Some(v) => v,
        };
        if next > RAW_MAX_LIBFFI_ELEMENTS {
            return Err(RawDescriptorError::LibffiLimit(name.clone()));
        }
        cursor = match offset.checked_add(field_size) {
            None => return Err(RawDescriptorError::FieldEndOverflow),
            Some(v) => v,
        };
        elements = next;
        i = i + 1;
    }
    assert(sorted@.skip(i as int).len() == 0);
    if size < cursor {
        return Err(RawDescriptorError::FieldsExceedSize(name.clone()));
    }
    let total = match elements.checked_add(size - cursor) {
        None => return Err(RawDescriptorError::LibffiOverflow),
        Some(v) => v,
    };
    if total > RAW_MAX_LIBFFI_ELEMENTS {
        return Err(RawDescriptorError::LibffiLimit(name.clone()));
    }
    Ok(RawAggregateMetrics { size, expanded_fields: expanded, libffi_elements: total })
}

/// The limits check of a whole descriptor: its `name` and the layout for
/// the host architecture.
pub open spec fn spec_aggregate_descriptor_limits(root: JsonValue, kind: RawDescriptorKind, arch: HostArchitecture)
    -> Result<RawAggregateMetrics, RawDescriptorFault>
{
    match spec_get_str(root, "name"@) {
        None => Err(RawDescriptorFault::MissingName),
        Some(name) => match spec_get(root, spec_architecture_key(arch)) {
            None => Err(RawDescriptorFault::MissingArchitecture(arch)),
            Some(layout) => spec_layout_limits(name, layout, kind, seq![]),
        },
    }
}

/// Checks a parsed raw aggregate descriptor against the size, nesting and
/// expansion limits for the layout of `arch`.
pub fn validate_raw_aggregate_descriptor_limits(root: &JsonValue, kind: RawDescriptorKind, arch: HostArchitecture)
    -> (r: Result<(), RawDescriptorError>)
    ensures
        r is Ok <==> spec_aggregate_descriptor_limits(*root, kind, arch) is Ok,
        r matches Err(e) ==> spec_aggregate_descriptor_limits(*root, kind, arch) == Err::<RawAggregateMetrics, RawDescriptorFault>(e@),
{
    let name = match root.get_str("name") {
        None => return Err(RawDescriptorError::MissingName),
        Some(name) => name,
    };
    let layout = match root.get(raw_host_architecture(arch)) {
        None => return Err(RawDescriptorError::MissingArchitecture(arch)),
        Some(layout) => layout,
    };
    let mut stack: Vec<String> = Vec::new();
    assert(names(stack@) =~= seq![]);
    match validate_raw_layout_limits(name, layout, kind, &mut stack) {
        Ok(_) => Ok(()),
        Err(e) => Err(e),
    }
}

} // verus!
