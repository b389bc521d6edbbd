//! Native struct and union descriptors: the JSON layout description of a
//! classic COM aggregate, read into a typed tree for the host architecture.
use vstd::prelude::*;
use crate::json::{
    JsonValue, string_is, spec_get, spec_get_str, spec_get_array, spec_as_array, spec_as_bool,
    lemma_get_decreases, lemma_array_item_decreases,
};
use crate::raw_layout::{
    RawDescriptorKind, RawNumberField, HostArchitecture, spec_descriptor_usize, raw_descriptor_usize,
    names, stack_contains, spec_architecture_key, raw_host_architecture, RawDescriptorError, RawDescriptorFault,
    spec_aggregate_descriptor_limits, validate_raw_aggregate_descriptor_limits, spec_qualified_name,
    validate_raw_qualified_name, spec_field_metrics, one_scalar_of_size, lemma_scalar_field_c_sizes,
};

verus! {

pub const MAX_NATIVE_AGGREGATE_DEPTH: usize = 64;

/// The scalar field kinds of a native aggregate.
#[derive(Clone, Copy, Debug, PartialEq, Eq, Structural)]
pub enum NativeScalar {
    I8,
    U8,
    I16,
    U16,
    I32,
    U32,
    I64,
    U64,
    F32,
    F64,
    ISize,
    USize,
}

/// The type of one field of a native aggregate.
#[derive(Debug)]
pub enum NativeFieldType {
    Scalar(NativeScalar),
    Guid,
    Pointer,
    Struct(Box<NativeStructDescriptor>),
    Union(Box<NativeUnionDescriptor>),
}

#[derive(Debug)]
pub struct NativeStructField {
    pub name: String,
    pub offset: usize,
    pub count: u32,
    pub typ: NativeFieldType,
}

/// A struct layout as its descriptor gives it.
#[derive(Debug)]
pub struct NativeStructDescriptor {
    pub name: String,
    pub size: usize,
    pub alignment: usize,
    pub fields: Vec<NativeStructField>,
}

#[derive(Debug)]
pub struct NativeUnionField {
    pub name: String,
    pub count: u32,
    pub typ: NativeFieldType,
}

/// A union layout as its descriptor gives it.
#[derive(Debug)]
pub struct NativeUnionDescriptor {
    pub name: String,
    pub size: usize,
    pub alignment: usize,
    pub fields: Vec<NativeUnionField>,
    pub complete: bool,
}

// The same trees over character sequences and sequences.
pub enum FieldTypeModel {
    Scalar(NativeScalar),
    Guid,
    Pointer,
    Struct(Box<StructModel>),
    Union(Box<UnionModel>),
}

pub struct StructFieldModel {
    pub name: Seq<char>,
    pub offset: usize,
    pub count: u32,
    pub typ: FieldTypeModel,
}

pub struct StructModel {
    pub name: Seq<char>,
    pub size: usize,
    pub alignment: usize,
    pub fields: Seq<StructFieldModel>,
}

pub struct UnionFieldModel {
    pub name: Seq<char>,
    pub count: u32,
    pub typ: FieldTypeModel,
}

pub struct UnionModel {
    pub name: Seq<char>,
    pub size: usize,
    pub alignment: usize,
    pub fields: Seq<UnionFieldModel>,
    pub complete: bool,
}

pub open spec fn struct_model(d: NativeStructDescriptor) -> StructModel
    decreases d,
{
    StructModel { name: d.name@, size: d.size, alignment: d.alignment, fields: struct_fields_model(d.fields@) }
}

pub open spec fn struct_fields_model(fs: Seq<NativeStructField>) -> Seq<StructFieldModel>
    decreases fs,
{
    if fs.len() == 0 {
        seq![]
    } else {
        struct_fields_model(fs.drop_last()).push(struct_field_model(fs.last()))
    }
}

pub open spec fn struct_field_model(f: NativeStructField) -> StructFieldModel
    decreases f,
{
    StructFieldModel { name: f.name@, offset: f.offset, count: f.count, typ: field_type_model(f.typ) }
}

pub open spec fn field_type_model(t: NativeFieldType) -> FieldTypeModel
    decreases t,
{
    match t {
        NativeFieldType::Scalar(s) => FieldTypeModel::Scalar(s),
        NativeFieldType::Guid => FieldTypeModel::Guid,
        NativeFieldType::Pointer => FieldTypeModel::Pointer,
        NativeFieldType::Struct(b) => FieldTypeModel::Struct(Box::new(struct_model(*b))),
        NativeFieldType::Union(b) => FieldTypeModel::Union(Box::new(union_model(*b))),
    }
}

pub open spec fn union_model(d: NativeUnionDescriptor) -> UnionModel
    decreases d,
{
    UnionModel {
        name: d.name@,
        size: d.size,
        alignment: d.alignment,
        fields: union_fields_model(d.fields@),
        complete: d.complete,
    }
}

pub open spec fn union_fields_model(fs: Seq<NativeUnionField>) -> Seq<UnionFieldModel>
    decreases fs,
{
    if fs.len() == 0 {
        seq![]
    } else {
        union_fields_model(fs.drop_last()).push(union_field_model(fs.last()))
    }
}

pub open spec fn union_field_model(f: NativeUnionField) -> UnionFieldModel
    decreases f,
{
    UnionFieldModel { name: f.name@, count: f.count, typ: field_type_model(f.typ) }
}

/// Why a native aggregate descriptor was refused. `RawDescriptorKind` says
/// whether a struct or a union descriptor was being read.
#[derive(Debug)]
pub enum NativeDescriptorError {
    MissingName(RawDescriptorKind),
    UnsupportedArchitecture(RawDescriptorKind),
    MissingArchitecture(RawDescriptorKind, HostArchitecture),
    InvalidNumber(RawNumberField),
    MissingFields(RawDescriptorKind),
    FieldMissingName(RawDescriptorKind),
    CountExceedsU32(RawDescriptorKind),
    FieldMissingType(RawDescriptorKind),
    TypeMissingKind(RawDescriptorKind),
    NestedMissingName(RawDescriptorKind),
    NestedMissingLayout(RawDescriptorKind),
    UnsupportedKind(RawDescriptorKind, String),
    DepthLimit(String),
    RecursiveCycle(String),
    InitializersNotArray,
    InitializerMissingKind,
    InitializerMissingField,
    UnsupportedInitializer(String),
    FieldExceedsSize(RawDescriptorKind, String),
    InitializerUnknownField(String),
}

pub enum NativeDescriptorFault {
    MissingName(RawDescriptorKind),
    UnsupportedArchitecture(RawDescriptorKind),
    MissingArchitecture(RawDescriptorKind, HostArchitecture),
    InvalidNumber(RawNumberField),
    MissingFields(RawDescriptorKind),
    FieldMissingName(RawDescriptorKind),
    CountExceedsU32(RawDescriptorKind),
    FieldMissingType(RawDescriptorKind),
    TypeMissingKind(RawDescriptorKind),
    NestedMissingName(RawDescriptorKind),
    NestedMissingLayout(RawDescriptorKind),
    UnsupportedKind(RawDescriptorKind, Seq<char>),
    DepthLimit(Seq<char>),
    RecursiveCycle(Seq<char>),
    InitializersNotArray,
    InitializerMissingKind,
    InitializerMissingField,
    UnsupportedInitializer(Seq<char>),
    FieldExceedsSize(RawDescriptorKind, Seq<char>),
    InitializerUnknownField(Seq<char>),
}

impl View for NativeDescriptorError {
    type V = NativeDescriptorFault;

    open spec fn view(&self) -> NativeDescriptorFault {
        match self {
            NativeDescriptorError::MissingName(k) => NativeDescriptorFault::MissingName(*k),
            NativeDescriptorError::UnsupportedArchitecture(k) => NativeDescriptorFault::UnsupportedArchitecture(*k),
            NativeDescriptorError::MissingArchitecture(k, a) => NativeDescriptorFault::MissingArchitecture(*k, *a),
            NativeDescriptorError::InvalidNumber(f) => NativeDescriptorFault::InvalidNumber(*f),
            NativeDescriptorError::MissingFields(k) => NativeDescriptorFault::MissingFields(*k),
            NativeDescriptorError::FieldMissingName(k) => NativeDescriptorFault::FieldMissingName(*k),
            NativeDescriptorError::CountExceedsU32(k) => NativeDescriptorFault::CountExceedsU32(*k),
            NativeDescriptorError::FieldMissingType(k) => NativeDescriptorFault::FieldMissingType(*k),
            NativeDescriptorError::TypeMissingKind(k) => NativeDescriptorFault::TypeMissingKind(*k),
            NativeDescriptorError::NestedMissingName(k) => NativeDescriptorFault::NestedMissingName(*k),
            NativeDescriptorError::NestedMissingLayout(k) => NativeDescriptorFault::NestedMissingLayout(*k),
            NativeDescriptorError::UnsupportedKind(k, s) => NativeDescriptorFault::UnsupportedKind(*k, s@),
            NativeDescriptorError::DepthLimit(n) => NativeDescriptorFault::DepthLimit(n@),
            NativeDescriptorError::RecursiveCycle(n) => NativeDescriptorFault::RecursiveCycle(n@),
            NativeDescriptorError::InitializersNotArray => NativeDescriptorFault::InitializersNotArray,
            NativeDescriptorError::InitializerMissingKind => NativeDescriptorFault::InitializerMissingKind,
            NativeDescriptorError::InitializerMissingField => NativeDescriptorFault::InitializerMissingField,
            NativeDescriptorError::UnsupportedInitializer(s) => NativeDescriptorFault::UnsupportedInitializer(s@),
            NativeDescriptorError::FieldExceedsSize(k, n) => NativeDescriptorFault::FieldExceedsSize(*k, n@),
            NativeDescriptorError::InitializerUnknownField(n) => NativeDescriptorFault::InitializerUnknownField(n@),
        }
    }
}

pub open spec fn number_fault(f: RawNumberField) -> NativeDescriptorFault {
    NativeDescriptorFault::InvalidNumber(f)
}

/// `json_usize`: the entry as a pointer-width integer.
pub open spec fn spec_json_usize(value: JsonValue, f: RawNumberField) -> Result<usize, NativeDescriptorFault> {
    match spec_descriptor_usize(value, f) {
        Ok(n) => Ok(n),
        Err(_) => Err(number_fault(f)),
    }
}

/// Reads a size, alignment, offset or count member as a `usize`.
pub fn json_usize(value: &JsonValue, f: RawNumberField) -> (r: Result<usize, NativeDescriptorError>)
    ensures
        r is Ok <==> spec_json_usize(*value, f) is Ok,
        r matches Ok(n) ==> spec_json_usize(*value, f) == Ok::<usize, NativeDescriptorFault>(n),
        r matches Err(e) ==> spec_json_usize(*value, f) == Err::<usize, NativeDescriptorFault>(e@),
{
    match raw_descriptor_usize(value, f) {
        Ok(n) => Ok(n),
        Err(_) => Err(NativeDescriptorError::InvalidNumber(f)),
    }
}

pub open spec fn spec_scalar_of(k: Seq<char>) -> Option<NativeScalar> {
    if k == "i8"@ { Some(NativeScalar::I8) }
    else if k == "u8"@ { Some(NativeScalar::U8) }
    else if k == "i16"@ { Some(NativeScalar::I16) }
    else if k == "u16"@ { Some(NativeScalar::U16) }
    else if k == "i32"@ { Some(NativeScalar::I32) }
    else if k == "u32"@ { Some(NativeScalar::U32) }
    else if k == "i64"@ { Some(NativeScalar::I64) }
    else if k == "u64"@ { Some(NativeScalar::U64) }
    else if k == "f32"@ { Some(NativeScalar::F32) }
    else if k == "f64"@ { Some(NativeScalar::F64) }
    else if k == "isize"@ { Some(NativeScalar::ISize) }
    else if k == "usize"@ { Some(NativeScalar::USize) }
    else { None }
}

fn scalar_of(k: &String) -> (r: Option<NativeScalar>)
    ensures
        r == spec_scalar_of(k@),
{
    if string_is(k, "i8") { Some(NativeScalar::I8) }
    else if string_is(k, "u8") { Some(NativeScalar::U8) }
    else if string_is(k, "i16") { Some(NativeScalar::I16) }
    else if string_is(k, "u16") { Some(NativeScalar::U16) }
    else if string_is(k, "i32") { Some(NativeScalar::I32) }
    else if string_is(k, "u32") { Some(NativeScalar::U32) }
    else if string_is(k, "i64") { Some(NativeScalar::I64) }
    else if string_is(k, "u64") { Some(NativeScalar::U64) }
    else if string_is(k, "f32") { Some(NativeScalar::F32) }
    else if string_is(k, "f64") { Some(NativeScalar::F64) }
    else if string_is(k, "isize") { Some(NativeScalar::ISize) }
    else if string_is(k, "usize") { Some(NativeScalar::USize) }
    else { None }
}

/// The bytes one element of a field type takes: scalars and pointers by
/// their width on the host, a GUID 16, a nested aggregate its declared size.
pub open spec fn spec_field_type_size(t: FieldTypeModel) -> nat {
    match t {
        FieldTypeModel::Scalar(s) => match s {
            NativeScalar::I8 | NativeScalar::U8 => 1,
            NativeScalar::I16 | NativeScalar::U16 => 2,
            NativeScalar::I32 | NativeScalar::U32 | NativeScalar::F32 => 4,
            NativeScalar::I64 | NativeScalar::U64 | NativeScalar::F64 => 8,
            NativeScalar::ISize | NativeScalar::USize => (usize::BITS / 8) as nat,
        },
        FieldTypeModel::Guid => 16,
        FieldTypeModel::Pointer => (usize::BITS / 8) as nat,
        FieldTypeModel::Struct(b) => b.size as nat,
        FieldTypeModel::Union(b) => b.size as nat,
    }
}

/// The bytes one element of a field type takes.
pub fn field_type_size(t: &NativeFieldType) -> (r: usize)
    ensures
        r == spec_field_type_size(field_type_model(*t)),
{
    match t {
        NativeFieldType::Scalar(s) => match s {
            NativeScalar::I8 | NativeScalar::U8 => 1,
            NativeScalar::I16 | NativeScalar::U16 => 2,
            NativeScalar::I32 | NativeScalar::U32 | NativeScalar::F32 => 4,
            NativeScalar::I64 | NativeScalar::U64 | NativeScalar::F64 => 8,
            NativeScalar::ISize | NativeScalar::USize => (usize::BITS / 8) as usize,
        },
        NativeFieldType::Guid => 16,
        NativeFieldType::Pointer => (usize::BITS / 8) as usize,
        NativeFieldType::Struct(b) => b.size,
        NativeFieldType::Union(b) => b.size,
    }
}

/// A native scalar field element takes its C width: `i8`/`u8` 1 byte,
/// `i16`/`u16` 2, `i32`/`u32`/`f32` 4, `i64`/`u64`/`f64` 8, and the
/// pointer-sized kinds the pointer width; a pointer takes the pointer width
/// and a GUID 16 bytes.
pub proof fn lemma_scalar_c_widths(s: NativeScalar)
    ensures
        (s == NativeScalar::I8 || s == NativeScalar::U8) ==> spec_field_type_size(FieldTypeModel::Scalar(s)) == 1,
        (s == NativeScalar::I16 || s == NativeScalar::U16) ==> spec_field_type_size(FieldTypeModel::Scalar(s)) == 2,
        (s == NativeScalar::I32 || s == NativeScalar::U32 || s == NativeScalar::F32)
            ==> spec_field_type_size(FieldTypeModel::Scalar(s)) == 4,
        (s == NativeScalar::I64 || s == NativeScalar::U64 || s == NativeScalar::F64)
            ==> spec_field_type_size(FieldTypeModel::Scalar(s)) == 8,
        (s == NativeScalar::ISize || s == NativeScalar::USize)
            ==> spec_field_type_size(FieldTypeModel::Scalar(s)) == usize::BITS / 8,
        spec_field_type_size(FieldTypeModel::Pointer) == usize::BITS / 8,
        spec_field_type_size(FieldTypeModel::Guid) == 16,
{
}

/// The native layout and the raw limits agree on scalar fields: a field
/// type whose kind names a native scalar takes, in the raw limits, as many
/// bytes as one element of that scalar in the native layout, as one fixed
/// field and one libffi element.
pub proof fn lemma_native_and_raw_scalar_sizes_agree(typ: JsonValue, stack: Seq<Seq<char>>)
    requires
        spec_get_str(typ, "kind"@) matches Some(k) && spec_scalar_of(k) is Some,
    ensures
        ({
            let s = spec_scalar_of(spec_get_str(typ, "kind"@)->0)->0;
            one_scalar_of_size(spec_field_metrics(typ, stack), spec_field_type_size(FieldTypeModel::Scalar(s)) as int)
        }),
{
    let k = spec_get_str(typ, "kind"@)->0;
    lemma_scalar_field_c_sizes(typ, stack);
    reveal_strlit("i8");
    reveal_strlit("u8");
    reveal_strlit("i16");
    reveal_strlit("u16");
    reveal_strlit("i32");
    reveal_strlit("u32");
    reveal_strlit("f32");
    reveal_strlit("i64");
    reveal_strlit("u64");
    reveal_strlit("f64");
    reveal_strlit("isize");
    reveal_strlit("usize");
    if k.len() == 2 {
        assert(k == "i8"@ || k == "u8"@);
    } else if k.len() == 3 && k[1] == '1' {
        assert(k == "i16"@ || k == "u16"@);
    } else if k.len() == 3 && k[1] == '3' {
        assert(k == "i32"@ || k == "u32"@ || k == "f32"@);
    } else if k.len() == 3 {
        assert(k == "i64"@ || k == "u64"@ || k == "f64"@);
    } else {
        assert(k == "isize"@ || k == "usize"@);
    }
}

/// Whether `count` elements of `t` from `offset` end within `size` bytes.
pub open spec fn spec_field_fits(offset: int, count: int, t: FieldTypeModel, size: int) -> bool {
    offset + count * spec_field_type_size(t) <= size
}

/// Whether `count` elements of `t` from `offset` end within `size` bytes.
pub fn field_fits(offset: usize, count: usize, t: &NativeFieldType, size: usize) -> (r: bool)
    ensures
        r == spec_field_fits(offset as int, count as int, field_type_model(*t), size as int),
{
    let element = field_type_size(t);
    match count.checked_mul(element) {
        None => {
            assert(count * element > usize::MAX);
            assert(offset + count * element > size) by (nonlinear_arith)
                requires count * element > usize::MAX, size <= usize::MAX, offset >= 0;
            false
        },
        Some(bytes) => match offset.checked_add(bytes) {
            None => false,
            Some(end) => end <= size,
        },
    }
}

/// Reads one aggregate: depth and recursion first, then its body with the
/// aggregate pushed on `stack`.
pub open spec fn spec_parse_struct(name: Seq<char>, layout: JsonValue, stack: Seq<Seq<char>>)
    -> Result<StructModel, NativeDescriptorFault>
    decreases layout, 4int, 0int,
{
    if stack.len() >= MAX_NATIVE_AGGREGATE_DEPTH {
        Err(NativeDescriptorFault::DepthLimit(name))
    } else if stack.contains(name) {
        Err(NativeDescriptorFault::RecursiveCycle(name))
    } else {
        spec_struct_body(name, layout, stack.push(name))
    }
}

pub open spec fn spec_struct_body(name: Seq<char>, layout: JsonValue, stack: Seq<Seq<char>>)
    -> Result<StructModel, NativeDescriptorFault>
    decreases layout, 3int, 0int,
{
    match spec_json_usize(layout, RawNumberField::Size) {
        Err(e) => Err(e),
        Ok(size) => match spec_json_usize(layout, RawNumberField::Alignment) {
            Err(e) => Err(e),
            Ok(alignment) => if spec_get_array(layout, "fields"@) is None {
                Err(NativeDescriptorFault::MissingFields(RawDescriptorKind::Struct))
            } else {
                match spec_struct_fields(layout, stack, 0, seq![]) {
                    Err(e) => Err(e),
                    Ok(fields) => Ok(StructModel { name, size, alignment, fields }),
                }
            },
        },
    }
}

pub open spec fn spec_struct_fields(layout: JsonValue, stack: Seq<Seq<char>>, i: int, acc: Seq<StructFieldModel>)
    -> Result<Seq<StructFieldModel>, NativeDescriptorFault>
    decreases layout, 2int, spec_get_array(layout, "fields"@)->0.len() - i,
{
    let fields = spec_get_array(layout, "fields"@)->0;
    if !(spec_get_array(layout, "fields"@) is Some) || i < 0 || i >= fields.len() {
        Ok(acc)
    } else {
        let field = fields[i];
        match spec_get_str(field, "name"@) {
            None => Err(NativeDescriptorFault::FieldMissingName(RawDescriptorKind::Struct)),
            Some(field_name) => match spec_json_usize(field, RawNumberField::Offset) {
                Err(e) => Err(e),
                Ok(offset) => match spec_json_usize(field, RawNumberField::Count) {
                    Err(e) => Err(e),
                    Ok(count) => if count > u32::MAX {
                        Err(NativeDescriptorFault::CountExceedsU32(RawDescriptorKind::Struct))
                    } else {
                        match spec_get(field, "type"@) {
                            None => Err(NativeDescriptorFault::FieldMissingType(RawDescriptorKind::Struct)),
                            Some(typ) => {
                                proof {
                                    lemma_get_decreases(layout, "fields"@);
                                    lemma_array_item_decreases(spec_get(layout, "fields"@)->0, i);
                                    lemma_get_decreases(field, "type"@);
                                }
                                match spec_field_type(typ, RawDescriptorKind::Struct, stack) {
                                    Err(e) => Err(e),
                                    Ok(t) => if !spec_field_fits(offset as int, count as int, t,
                                        spec_json_usize(layout, RawNumberField::Size)->Ok_0 as int) {
                                        Err(NativeDescriptorFault::FieldExceedsSize(RawDescriptorKind::Struct, field_name))
                                    } else {
                                        spec_struct_fields(layout, stack, i + 1,
                                            acc.push(StructFieldModel { name: field_name, offset, count: count as u32, typ: t }))
                                    },
                                }
                            },
                        }
                    },
                },
            },
        }
    }
}

/// Reads one field type; `owner` says which kind of aggregate holds it.
pub open spec fn spec_field_type(typ: JsonValue, owner: RawDescriptorKind, stack: Seq<Seq<char>>)
    -> Result<FieldTypeModel, NativeDescriptorFault>
    decreases typ, 1int, 0int,
{
    match spec_get_str(typ, "kind"@) {
        None => Err(NativeDescriptorFault::TypeMissingKind(owner)),
        Some(k) => if spec_scalar_of(k) is Some {
            Ok(FieldTypeModel::Scalar(spec_scalar_of(k)->0))
        } else if k == "guid"@ {
            Ok(FieldTypeModel::Guid)
        } else if k == "pointer"@ {
            Ok(FieldTypeModel::Pointer)
        } else if k == "struct"@ || k == "union"@ {
            let nested = if k == "struct"@ { RawDescriptorKind::Struct } else { RawDescriptorKind::Union };
            match spec_get_str(typ, "name"@) {
                None => Err(NativeDescriptorFault::NestedMissingName(nested)),
                Some(n) => match spec_get(typ, "layout"@) {
                    None => Err(NativeDescriptorFault::NestedMissingLayout(nested)),
                    Some(l) => {
                        proof { lemma_get_decreases(typ, "layout"@); }
                        if nested == RawDescriptorKind::Struct {
                            match spec_parse_struct(n, l, stack) {
                                Err(e) => Err(e),
                                Ok(m) => Ok(FieldTypeModel::Struct(Box::new(m))),
                            }
                        } else {
                            match spec_parse_union(n, l, stack) {
                                Err(e) => Err(e),
                                Ok(m) => Ok(FieldTypeModel::Union(Box::new(m))),
                            }
                        }
                    },
                },
            }
        } else {
            Err(NativeDescriptorFault::UnsupportedKind(owner, k))
        },
    }
}

pub open spec fn spec_parse_union(name: Seq<char>, layout: JsonValue, stack: Seq<Seq<char>>)
    -> Result<UnionModel, NativeDescriptorFault>
    decreases layout, 4int, 0int,
{
    if stack.len() >= MAX_NATIVE_AGGREGATE_DEPTH {
        Err(NativeDescriptorFault::DepthLimit(name))
    } else if stack.contains(name) {
        Err(NativeDescriptorFault::RecursiveCycle(name))
    } else {
        spec_union_body(name, layout, stack.push(name))
    }
}

/// Whether a union layout carries `complete: true`.
pub open spec fn spec_union_complete(layout: JsonValue) -> bool {
    match spec_get(layout, "complete"@) {
        Some(v) => spec_as_bool(v) == Some(true),
        None => false,
    }
}

pub open spec fn spec_union_body(name: Seq<char>, layout: JsonValue, stack: Seq<Seq<char>>)
    -> Result<UnionModel, NativeDescriptorFault>
    decreases layout, 3int, 0int,
{
    match spec_json_usize(layout, RawNumberField::Size) {
        Err(e) => Err(e),
        Ok(size) => match spec_json_usize(layout, RawNumberField::Alignment) {
            Err(e) => Err(e),
            Ok(alignment) => if spec_get_array(layout, "fields"@) is None {
                Err(NativeDescriptorFault::MissingFields(RawDescriptorKind::Union))
            } else {
                match spec_union_fields(layout, stack, 0, seq![]) {
                    Err(e) => Err(e),
                    Ok(fields) => Ok(UnionModel { name, size, alignment, fields, complete: spec_union_complete(layout) }),
                }
            },
        },
    }
}

pub open spec fn spec_union_fields(layout: JsonValue, stack: Seq<Seq<char>>, i: int, acc: Seq<UnionFieldModel>)
    -> Result<Seq<UnionFieldModel>, NativeDescriptorFault>
    decreases layout, 2int, spec_get_array(layout, "fields"@)->0.len() - i,
{
    let fields = spec_get_array(layout, "fields"@)->0;
    if !(spec_get_array(layout, "fields"@) is Some) || i < 0 || i >= fields.len() {
        Ok(acc)
    } else {
        let field = fields[i];
        match spec_get_str(field, "name"@) {
            None => Err(NativeDescriptorFault::FieldMissingName(RawDescriptorKind::Union)),
            Some(field_name) => match spec_json_usize(field, RawNumberField::Count) {
                Err(e) => Err(e),
                Ok(count) => if count > u32::MAX {
                    Err(NativeDescriptorFault::CountExceedsU32(RawDescriptorKind::Union))
                } else {
                    match spec_get(field, "type"@) {
                        None => Err(NativeDescriptorFault::FieldMissingType(RawDescriptorKind::Union)),
                        Some(typ) => {
                            proof {
                                lemma_get_decreases(layout, "fields"@);
                                lemma_array_item_decreases(spec_get(layout, "fields"@)->0, i);
                                lemma_get_decreases(field, "type"@);
                            }
                            match spec_field_type(typ, RawDescriptorKind::Union, stack) {
                                Err(e) => Err(e),
                                Ok(t) => if !spec_field_fits(0, count as int, t,
                                    spec_json_usize(layout, RawNumberField::Size)->Ok_0 as int) {
                                    Err(NativeDescriptorFault::FieldExceedsSize(RawDescriptorKind::Union, field_name))
                                } else {
                                    spec_union_fields(layout, stack, i + 1,
                                        acc.push(UnionFieldModel { name: field_name, count: count as u32, typ: t }))
                                },
                            }
                        },
                    }
                },
            },
        }
    }
}

pub open spec fn struct_result(r: Result<NativeStructDescriptor, NativeDescriptorError>) -> Result<StructModel, NativeDescriptorFault> {
    match r {
        Ok(d) => Ok(struct_model(d)),
        Err(e) => Err(e@),
    }
}

pub open spec fn union_result(r: Result<NativeUnionDescriptor, NativeDescriptorError>) -> Result<UnionModel, NativeDescriptorFault> {
    match r {
        Ok(d) => Ok(union_model(d)),
        Err(e) => Err(e@),
    }
}

pub open spec fn field_type_result(r: Result<NativeFieldType, NativeDescriptorError>) -> Result<FieldTypeModel, NativeDescriptorFault> {
    match r {
        Ok(t) => Ok(field_type_model(t)),
        Err(e) => Err(e@),
    }
}

/// Refuses an aggregate nested too deeply or through itself; otherwise
/// pushes its name on `stack`.
pub fn enter_native_aggregate(name: &String, stack: &mut Vec<String>) -> (r: Result<(), NativeDescriptorError>)
    ensures
        r is Ok <==> old(stack)@.len() < MAX_NATIVE_AGGREGATE_DEPTH && !names(old(stack)@).contains(name@),
        r is Ok ==> final(stack)@ == old(stack)@.push(*name) && names(final(stack)@) == names(old(stack)@).push(name@),
        r is Err ==> final(stack)@ == old(stack)@,
        r matches Err(e) ==> (if old(stack)@.len() >= MAX_NATIVE_AGGREGATE_DEPTH {
            e@ == NativeDescriptorFault::DepthLimit(name@)
        } else {
            e@ == NativeDescriptorFault::RecursiveCycle(name@)
        }),
{
    if stack.len() >= MAX_NATIVE_AGGREGATE_DEPTH {
        return Err(NativeDescriptorError::DepthLimit(name.clone()));
    }
    if stack_contains(stack, name) {
        return Err(NativeDescriptorError::RecursiveCycle(name.clone()));
    }
    let ghost before = stack@;
    stack.push(name.clone());
    assert(names(before.push(*name)) =~= names(before).push(name@));
    Ok(())
}

/// Reads a struct layout, `stack` holding the aggregates around it; `stack`
/// is left as it was.
pub fn parse_native_struct_variant_with_stack(name: &String, layout: &JsonValue, stack: &mut Vec<String>)
    -> (r: Result<NativeStructDescriptor, NativeDescriptorError>)
    ensures
        final(stack)@ == old(stack)@,
        struct_result(r) == spec_parse_struct(name@, *layout, names(old(stack)@)),
    decreases layout, 4int, 0int,
{
    let ghost before = stack@;
    match enter_native_aggregate(name, stack) {
        Err(e) => return Err(e),
        Ok(()) => {},
    }
    let result = parse_native_struct_variant_body(name, layout, stack);
    stack.pop();
    assert(stack@ =~= before);
    result
}

/// Reads the size, alignment and fields of a struct layout, in order; a
/// field's type may be a nested aggregate, read with `stack` around it.
pub fn parse_native_struct_variant_body(name: &String, layout: &JsonValue, stack: &mut Vec<String>)
    -> (r: Result<NativeStructDescriptor, NativeDescriptorError>)
    ensures
        final(stack)@ == old(stack)@,
        struct_result(r) == spec_struct_body(name@, *layout, names(old(stack)@)),
    decreases layout, 3int, 0int,
{
    let size = match json_usize(layout, RawNumberField::Size) {
        Err(e) => return Err(e),
        Ok(v) => v,
    };
    let alignment = match json_usize(layout, RawNumberField::Alignment) {
        Err(e) => return Err(e),
        Ok(v) => v,
    };
    let fields = match layout.get_array("fields") {
        None => return Err(NativeDescriptorError::MissingFields(RawDescriptorKind::Struct)),
        Some(fields) => fields,
    };
    let ghost st = names(stack@);
    let mut parsed: Vec<NativeStructField> = Vec::new();
    let mut i: usize = 0;
    while i < fields.len()
        invariant
            stack@ == old(stack)@,
            st == names(old(stack)@),
            spec_get_array(*layout, "fields"@) == Some(fields@),
            spec_json_usize(*layout, RawNumberField::Size) == Ok::<usize, NativeDescriptorFault>(size),
            spec_json_usize(*layout, RawNumberField::Alignment) == Ok::<usize, NativeDescriptorFault>(alignment),
            0 <= i <= fields@.len(),
            spec_struct_body(name@, *layout, st) == (match spec_struct_fields(*layout, st, i as int, struct_fields_model(parsed@)) {
                Err(e) => Err(e),
                Ok(fs) => Ok(StructModel { name: name@, size, alignment, fields: fs }),
            }),
        decreases fields@.len() - i,
    {
        let field = &fields[i];
        let field_name = match field.get_str("name") {
            None => return Err(NativeDescriptorError::FieldMissingName(RawDescriptorKind::Struct)),
            Some(n) => n,
        };
        let offset = match json_usize(field, RawNumberField::Offset) {
            Err(e) => return Err(e),
            Ok(v) => v,
        };
        let count = match json_usize(field, RawNumberField::Count) {
            Err(e) => return Err(e),
            Ok(v) => v,
        };
        if count > u32::MAX as usize {
            return Err(NativeDescriptorError::CountExceedsU32(RawDescriptorKind::Struct));
        }
        let typ = match field.get("type") {
            None => return Err(NativeDescriptorError::FieldMissingType(RawDescriptorKind::Struct)),
            Some(typ) => typ,
        };
        proof {
            lemma_get_decreases(*layout, "fields"@);
            lemma_array_item_decreases(spec_get(*layout, "fields"@)->0, i as int);
            lemma_get_decreases(*field, "type"@);
        }
        let t = match parse_native_field_type(typ, RawDescriptorKind::Struct, stack) {
            Err(e) => return Err(e),
            Ok(t) => t,
        };
        if !field_fits(offset, count, &t, size) {
            return Err(NativeDescriptorError::FieldExceedsSize(RawDescriptorKind::Struct, field_name.clone()));
        }
        let ghost prev = parsed@;
        let f = NativeStructField { name: field_name.clone(), offset, count: count as u32, typ: t };
        parsed.push(f);
        assert(parsed@.drop_last() == prev);
        assert(struct_fields_model(parsed@) == struct_fields_model(prev).push(struct_field_model(f)));
        i = i + 1;
    }
    Ok(NativeStructDescriptor { name: name.clone(), size, alignment, fields: parsed })
}

/// Reads a field type of a struct or union (`owner`).
pub fn parse_native_field_type(typ: &JsonValue, owner: RawDescriptorKind, stack: &mut Vec<String>)
    -> (r: Result<NativeFieldType, NativeDescriptorError>)
    ensures
        final(stack)@ == old(stack)@,
        field_type_result(r) == spec_field_type(*typ, owner, names(old(stack)@)),
    decreases typ, 1int, 0int,
{
    let kind = match typ.get_str("kind") {
        None => return Err(NativeDescriptorError::TypeMissingKind(owner)),
        Some(k) => k,
    };
    match scalar_of(kind) {
        Some(s) => return Ok(NativeFieldType::Scalar(s)),
        None => {},
    }
    if string_is(kind, "guid") {
        Ok(NativeFieldType::Guid)
    } else if string_is(kind, "pointer") {
        Ok(NativeFieldType::Pointer)
    } else if string_is(kind, "struct") || string_is(kind, "union") {
        let is_struct = string_is(kind, "struct");
        let nested = if is_struct { RawDescriptorKind::Struct } else { RawDescriptorKind::Union };
        let nested_name = match typ.get_str("name") {
            None => return Err(NativeDescriptorError::NestedMissingName(nested)),
            Some(n) => n,
        };
        let nested_layout = match typ.get("layout") {
            None => return Err(NativeDescriptorError::NestedMissingLayout(nested)),
            Some(l) => l,
        };
        proof { lemma_get_decreases(*typ, "layout"@); }
        if is_struct {
            match parse_native_struct_variant_with_stack(nested_name, nested_layout, stack) {
                Err(e) => Err(e),
                Ok(m) => Ok(NativeFieldType::Struct(Box::new(m))),
            }
        } else {
            match parse_native_union_variant_with_stack(nested_name, nested_layout, stack) {
                Err(e) => Err(e),
                Ok(m) => Ok(NativeFieldType::Union(Box::new(m))),
            }
        }
    } else {
        Err(NativeDescriptorError::UnsupportedKind(owner, kind.clone()))
    }
}

/// Reads a union layout, `stack` holding the aggregates around it; `stack`
/// is left as it was.
pub fn parse_native_union_variant_with_stack(name: &String, layout: &JsonValue, stack: &mut Vec<String>)
    -> (r: Result<NativeUnionDescriptor, NativeDescriptorError>)
    ensures
        final(stack)@ == old(stack)@,
        union_result(r) == spec_parse_union(name@, *layout, names(old(stack)@)),
    decreases layout, 4int, 0int,
{
    let ghost before = stack@;
    match enter_native_aggregate(name, stack) {
        Err(e) => return Err(e),
        Ok(()) => {},
    }
    let result = parse_native_union_variant_body(name, layout, stack);
    stack.pop();
    assert(stack@ =~= before);
    result
}

/// Reads the size, alignment, fields and completeness of a union layout,
/// in order; a field's type may be a nested aggregate, read with `stack`
/// around it.
pub fn parse_native_union_variant_body(name: &String, layout: &JsonValue, stack: &mut Vec<String>)
    -> (r: Result<NativeUnionDescriptor, NativeDescriptorError>)
    ensures
        final(stack)@ == old(stack)@,
        union_result(r) == spec_union_body(name@, *layout, names(old(stack)@)),
    decreases layout, 3int, 0int,
{
    let size = match json_usize(layout, RawNumberField::Size) {
        Err(e) => return Err(e),
        Ok(v) => v,
    };
    let alignment = match json_usize(layout, RawNumberField::Alignment) {
        Err(e) => return Err(e),
        Ok(v) => v,
    };
    let fields = match layout.get_array("fields") {
        None => return Err(NativeDescriptorError::MissingFields(RawDescriptorKind::Union)),
        Some(fields) => fields,
    };
    let ghost st = names(stack@);
    let mut parsed: Vec<NativeUnionField> = Vec::new();
    let mut i: usize = 0;
    while i < fields.len()
        invariant
            stack@ == old(stack)@,
            st == names(old(stack)@),
            spec_get_array(*layout, "fields"@) == Some(fields@),
            spec_json_usize(*layout, RawNumberField::Size) == Ok::<usize, NativeDescriptorFault>(size),
            spec_json_usize(*layout, RawNumberField::Alignment) == Ok::<usize, NativeDescriptorFault>(alignment),
            0 <= i <= fields@.len(),
            spec_union_body(name@, *layout, st) == (match spec_union_fields(*layout, st, i as int, union_fields_model(parsed@)) {
                Err(e) => Err(e),
                Ok(fs) => Ok(UnionModel { name: name@, size, alignment, fields: fs, complete: spec_union_complete(*layout) }),
            }),
        decreases fields@.len() - i,
    {
        let field = &fields[i];
        let field_name = match field.get_str("name") {
            None => return Err(NativeDescriptorError::FieldMissingName(RawDescriptorKind::Union)),
            Some(n) => n,
        };
        let count = match json_usize(field, RawNumberField::Count) {
            Err(e) => return Err(e),
            Ok(v) => v,
        };
        if count > u32::MAX as usize {
            return Err(NativeDescriptorError::CountExceedsU32(RawDescriptorKind::Union));
        }
        let typ = match field.get("type") {
            None => return Err(NativeDescriptorError::FieldMissingType(RawDescriptorKind::Union)),
            Some(typ) => typ,
        };
        proof {
            lemma_get_decreases(*layout, "fields"@);
            lemma_array_item_decreases(spec_get(*layout, "fields"@)->0, i as int);
            lemma_get_decreases(*field, "type"@);
        }
        let t = match parse_native_field_type(typ, RawDescriptorKind::Union, stack) {
            Err(e) => return Err(e),
            Ok(t) => t,
        };
        if !field_fits(0, count, &t, size) {
            return Err(NativeDescriptorError::FieldExceedsSize(RawDescriptorKind::Union, field_name.clone()));
        }
        let ghost prev = parsed@;
        let f = NativeUnionField { name: field_name.clone(), count: count as u32, typ: t };
        parsed.push(f);
        assert(parsed@.drop_last() == prev);
        assert(union_fields_model(parsed@) == union_fields_model(prev).push(union_field_model(f)));
        i = i + 1;
    }
    let complete = match layout.get("complete") {
        Some(v) => v.as_bool() == Some(true),
        None => false,
    };
    Ok(NativeUnionDescriptor { name: name.clone(), size, alignment, fields: parsed, complete })
}

/// Reads a struct layout on its own.
pub fn parse_native_struct_variant(name: &String, layout: &JsonValue) -> (r: Result<NativeStructDescriptor, NativeDescriptorError>)
    ensures
        struct_result(r) == spec_parse_struct(name@, *layout, seq![]),
{
    let mut stack: Vec<String> = Vec::new();
    assert(names(stack@) =~= seq![]);
    parse_native_struct_variant_with_stack(name, layout, &mut stack)
}

/// Reads a union layout on its own.
pub fn parse_native_union_variant(name: &String, layout: &JsonValue) -> (r: Result<NativeUnionDescriptor, NativeDescriptorError>)
    ensures
        union_result(r) == spec_parse_union(name@, *layout, seq![]),
{
    let mut stack: Vec<String> = Vec::new();
    assert(names(stack@) =~= seq![]);
    parse_native_union_variant_with_stack(name, layout, &mut stack)
}

/// A struct descriptor for the host architecture with the fields that its
/// `sizeOfLayout` initializers name, in order.
#[derive(Debug)]
pub struct NativeStructLayoutDescriptor {
    pub layout: NativeStructDescriptor,
    pub size_field_initializers: Vec<String>,
}

/// Whether one of `fields` has this name.
pub open spec fn has_field_named(fields: Seq<StructFieldModel>, name: Seq<char>) -> bool {
    exists|k: int| 0 <= k < fields.len() && (#[trigger] fields[k]).name == name
}

/// The `sizeOfLayout` initializer fields from index `i`; each must name a
/// field of the struct.
pub open spec fn spec_initializers(items: Seq<JsonValue>, i: int, acc: Seq<Seq<char>>, fields: Seq<StructFieldModel>)
    -> Result<Seq<Seq<char>>, NativeDescriptorFault>
    decreases items.len() - i,
{
    if i < 0 || i >= items.len() {
        Ok(acc)
    } else {
        match spec_get_str(items[i], "kind"@) {
            None => Err(NativeDescriptorFault::InitializerMissingKind),
            Some(k) => match spec_get_str(items[i], "field"@) {
                None => Err(NativeDescriptorFault::InitializerMissingField),
                Some(f) => if k != "sizeOfLayout"@ {
                    Err(NativeDescriptorFault::UnsupportedInitializer(k))
                } else if !has_field_named(fields, f) {
                    Err(NativeDescriptorFault::InitializerUnknownField(f))
                } else {
                    spec_initializers(items, i + 1, acc.push(f), fields)
                },
            },
        }
    }
}

/// Whether one of the struct's fields has this name.
fn struct_has_field(d: &NativeStructDescriptor, name: &String) -> (r: bool)
    ensures
        r == has_field_named(struct_model(*d).fields, name@),
{
    let ghost model = struct_fields_model(d.fields@);
    proof { lemma_struct_fields_model(d.fields@); }
    let mut i: usize = 0;
    while i < d.fields.len()
        invariant
            0 <= i <= d.fields@.len(),
            model == struct_fields_model(d.fields@),
            model.len() == d.fields@.len(),
            forall|k: int| 0 <= k < d.fields@.len() ==> (#[trigger] model[k]).name == d.fields@[k].name@,
            forall|k: int| 0 <= k < i ==> d.fields@[k].name@ != name@,
        decreases d.fields@.len() - i,
    {
        if d.fields[i].name == *name {
            assert(model[i as int].name == name@);
            return true;
        }
        i = i + 1;
    }
    assert forall|k: int| 0 <= k < model.len() implies (#[trigger] model[k]).name != name@ by {
        assert(model[k].name == d.fields@[k].name@);
    }
    false
}

proof fn lemma_struct_fields_model(fs: Seq<NativeStructField>)
    ensures
        struct_fields_model(fs).len() == fs.len(),
        forall|k: int| 0 <= k < fs.len() ==> (#[trigger] struct_fields_model(fs)[k]).name == fs[k].name@,
    decreases fs.len(),
{
    if fs.len() > 0 {
        lemma_struct_fields_model(fs.drop_last());
        assert forall|k: int| 0 <= k < fs.len() implies (#[trigger] struct_fields_model(fs)[k]).name == fs[k].name@ by {
            assert(struct_fields_model(fs) == struct_fields_model(fs.drop_last()).push(struct_field_model(fs.last())));
            if k < fs.len() - 1 {
                assert(struct_fields_model(fs)[k] == struct_fields_model(fs.drop_last())[k]);
                assert(fs.drop_last()[k] == fs[k]);
            } else {
                assert(struct_fields_model(fs)[k] == struct_field_model(fs.last()));
            }
        }
    }
}

/// A whole struct descriptor: `name`, the layout of `arch`, initializers.
pub open spec fn spec_native_struct_layout(root: JsonValue, arch: HostArchitecture)
    -> Result<(StructModel, Seq<Seq<char>>), NativeDescriptorFault>
{
    match spec_get_str(root, "name"@) {
        None => Err(NativeDescriptorFault::MissingName(RawDescriptorKind::Struct)),
        Some(name) => if arch == HostArchitecture::Unsupported {
            Err(NativeDescriptorFault::UnsupportedArchitecture(RawDescriptorKind::Struct))
        } else {
            match spec_get(root, spec_architecture_key(arch)) {
                None => Err(NativeDescriptorFault::MissingArchitecture(RawDescriptorKind::Struct, arch)),
                Some(layout) => match spec_parse_struct(name, layout, seq![]) {
                    Err(e) => Err(e),
                    Ok(m) => match spec_get(root, "initializers"@) {
                        None => Ok((m, seq![])),
                        Some(v) => match spec_as_array(v) {
                            None => Err(NativeDescriptorFault::InitializersNotArray),
                            Some(items) => match spec_initializers(items, 0, seq![], m.fields) {
                                Err(e) => Err(e),
                                Ok(fs) => Ok((m, fs)),
                            },
                        },
                    },
                },
            }
        },
    }
}

pub open spec fn strings(v: Seq<String>) -> Seq<Seq<char>> {
    v.map_values(|s: String| s@)
}

/// Reads a parsed native struct descriptor for the layout of `arch`.
pub fn native_struct_layout(root: &JsonValue, arch: HostArchitecture)
    -> (r: Result<NativeStructLayoutDescriptor, NativeDescriptorError>)
    ensures
        r is Ok <==> spec_native_struct_layout(*root, arch) is Ok,
        r matches Ok(d) ==> spec_native_struct_layout(*root, arch)
            == Ok::<(StructModel, Seq<Seq<char>>), NativeDescriptorFault>((struct_model(d.layout), strings(d.size_field_initializers@))),
        r matches Err(e) ==> spec_native_struct_layout(*root, arch) == Err::<(StructModel, Seq<Seq<char>>), NativeDescriptorFault>(e@),
{
    let name = match root.get_str("name") {
        None => return Err(NativeDescriptorError::MissingName(RawDescriptorKind::Struct)),
        Some(name) => name,
    };
    if arch == HostArchitecture::Unsupported {
        return Err(NativeDescriptorError::UnsupportedArchitecture(RawDescriptorKind::Struct));
    }
    let layout = match root.get(raw_host_architecture(arch)) {
        None => return Err(NativeDescriptorError::MissingArchitecture(RawDescriptorKind::Struct, arch)),
        Some(layout) => layout,
    };
    let parsed = match parse_native_struct_variant(name, layout) {
        Err(e) => return Err(e),
        Ok(parsed) => parsed,
    };
    let mut fields: Vec<String> = Vec::new();
    match root.get("initializers") {
        None => {
            assert(strings(fields@) =~= seq![]);
        },
        Some(v) => {
            let items = match v.as_array() {
                None => return Err(NativeDescriptorError::InitializersNotArray),
                Some(items) => items,
            };
            let mut i: usize = 0;
            assert(strings(fields@) =~= seq![]);
            while i < items.len()
                invariant
                    0 <= i <= items@.len(),
                    spec_native_struct_layout(*root, arch) == (match spec_initializers(items@, i as int, strings(fields@), struct_model(parsed).fields) {
                        Err(e) => Err(e),
                        Ok(fs) => Ok((struct_model(parsed), fs)),
                    }),
                decreases items@.len() - i,
            {
                let item = &items[i];
                let k = match item.get_str("kind") {
                    None => return Err(NativeDescriptorError::InitializerMissingKind),
                    Some(k) => k,
                };
                let f = match item.get_str("field") {
                    None => return Err(NativeDescriptorError::InitializerMissingField),
                    Some(f) => f,
                };
                if !string_is(k, "sizeOfLayout") {
                    return Err(NativeDescriptorError::UnsupportedInitializer(k.clone()));
                }
                if !struct_has_field(&parsed, f) {
                    return Err(NativeDescriptorError::InitializerUnknownField(f.clone()));
                }
                let ghost prev = fields@;
                fields.push(f.clone());
                assert(strings(fields@) =~= strings(prev).push(f@));
                i = i + 1;
            }
        },
    }
    Ok(NativeStructLayoutDescriptor { layout: parsed, size_field_initializers: fields })
}

/// A whole union descriptor: `name` and the layout of `arch`.
pub open spec fn spec_native_union_layout(root: JsonValue, arch: HostArchitecture) -> Result<UnionModel, NativeDescriptorFault> {
    match spec_get_str(root, "name"@) {
        None => Err(NativeDescriptorFault::MissingName(RawDescriptorKind::Union)),
        Some(name) => if arch == HostArchitecture::Unsupported {
            Err(NativeDescriptorFault::UnsupportedArchitecture(RawDescriptorKind::Union))
        } else {
            match spec_get(root, spec_architecture_key(arch)) {
                None => Err(NativeDescriptorFault::MissingArchitecture(RawDescriptorKind::Union, arch)),
                Some(layout) => spec_parse_union(name, layout, seq![]),
            }
        },
    }
}

/// Reads a parsed native union descriptor for the layout of `arch`.
pub fn native_union_layout(root: &JsonValue, arch: HostArchitecture) -> (r: Result<NativeUnionDescriptor, NativeDescriptorError>)
    ensures
        union_result(r) == spec_native_union_layout(*root, arch),
{
    let name = match root.get_str("name") {
        None => return Err(NativeDescriptorError::MissingName(RawDescriptorKind::Union)),
        Some(name) => name,
    };
    if arch == HostArchitecture::Unsupported {
        return Err(NativeDescriptorError::UnsupportedArchitecture(RawDescriptorKind::Union));
    }
    let layout = match root.get(raw_host_architecture(arch)) {
        None => return Err(NativeDescriptorError::MissingArchitecture(RawDescriptorKind::Union, arch)),
        Some(layout) => layout,
    };
    parse_native_union_variant(name, layout)
}


/// Why a raw aggregate layout was refused: by the raw limits, by its native
/// layout, or because its name is not a qualified name.
#[derive(Debug)]
pub enum RawAggregateLayoutError {
    Limits(RawDescriptorError),
    Layout(NativeDescriptorError),
    NotQualifiedName,
}

/// The plain contents of a `RawAggregateLayoutError`.
pub enum RawAggregateLayoutFault {
    Limits(RawDescriptorFault),
    Layout(NativeDescriptorFault),
    NotQualifiedName,
}

impl View for RawAggregateLayoutError {
    type V = RawAggregateLayoutFault;

    open spec fn view(&self) -> RawAggregateLayoutFault {
        match self {
            RawAggregateLayoutError::Limits(e) => RawAggregateLayoutFault::Limits(e@),
            RawAggregateLayoutError::Layout(e) => RawAggregateLayoutFault::Layout(e@),
            RawAggregateLayoutError::NotQualifiedName => RawAggregateLayoutFault::NotQualifiedName,
        }
    }
}

/// A raw struct layout: the raw limits first, then the native layout, then
/// its qualified name.
pub open spec fn spec_raw_struct_layout(root: JsonValue, arch: HostArchitecture)
    -> Result<(StructModel, Seq<Seq<char>>), RawAggregateLayoutFault>
{
    match spec_aggregate_descriptor_limits(root, RawDescriptorKind::Struct, arch) {
        Err(e) => Err(RawAggregateLayoutFault::Limits(e)),
        Ok(_) => match spec_native_struct_layout(root, arch) {
            Err(e) => Err(RawAggregateLayoutFault::Layout(e)),
            Ok(layout) => if spec_qualified_name(layout.0.name) {
                Ok(layout)
            } else {
                Err(RawAggregateLayoutFault::NotQualifiedName)
            },
        },
    }
}

/// A raw union layout: the raw limits first, then the native layout, then
/// its qualified name.
pub open spec fn spec_raw_union_layout(root: JsonValue, arch: HostArchitecture)
    -> Result<UnionModel, RawAggregateLayoutFault>
{
    match spec_aggregate_descriptor_limits(root, RawDescriptorKind::Union, arch) {
        Err(e) => Err(RawAggregateLayoutFault::Limits(e)),
        Ok(_) => match spec_native_union_layout(root, arch) {
            Err(e) => Err(RawAggregateLayoutFault::Layout(e)),
            Ok(layout) => if spec_qualified_name(layout.name) {
                Ok(layout)
            } else {
                Err(RawAggregateLayoutFault::NotQualifiedName)
            },
        },
    }
}

/// Reads the layout of a raw struct descriptor.
pub fn raw_struct_layout(root: &JsonValue, arch: HostArchitecture)
    -> (r: Result<NativeStructLayoutDescriptor, RawAggregateLayoutError>)
    ensures
        r is Ok <==> spec_raw_struct_layout(*root, arch) is Ok,
        r matches Ok(d) ==> spec_raw_struct_layout(*root, arch)
            == Ok::<(StructModel, Seq<Seq<char>>), RawAggregateLayoutFault>((struct_model(d.layout), strings(d.size_field_initializers@))),
        r matches Err(e) ==> spec_raw_struct_layout(*root, arch) == Err::<(StructModel, Seq<Seq<char>>), RawAggregateLayoutFault>(e@),
{
    match validate_raw_aggregate_descriptor_limits(root, RawDescriptorKind::Struct, arch) {
        Err(e) => return Err(RawAggregateLayoutError::Limits(e)),
        Ok(()) => {},
    }
    let layout = match native_struct_layout(root, arch) {
        Err(e) => return Err(RawAggregateLayoutError::Layout(e)),
        Ok(layout) => layout,
    };
    match validate_raw_qualified_name(layout.layout.name.as_str()) {
        Err(_) => Err(RawAggregateLayoutError::NotQualifiedName),
        Ok(()) => Ok(layout),
    }
}

/// Reads the layout of a raw union descriptor.
pub fn raw_union_layout(root: &JsonValue, arch: HostArchitecture)
    -> (r: Result<NativeUnionDescriptor, RawAggregateLayoutError>)
    ensures
        r is Ok <==> spec_raw_union_layout(*root, arch) is Ok,
        r matches Ok(d) ==> spec_raw_union_layout(*root, arch) == Ok::<UnionModel, RawAggregateLayoutFault>(union_model(d)),
        r matches Err(e) ==> spec_raw_union_layout(*root, arch) == Err::<UnionModel, RawAggregateLayoutFault>(e@),
{
    match validate_raw_aggregate_descriptor_limits(root, RawDescriptorKind::Union, arch) {
        Err(e) => return Err(RawAggregateLayoutError::Limits(e)),
        Ok(()) => {},
    }
    let layout = match native_union_layout(root, arch) {
        Err(e) => return Err(RawAggregateLayoutError::Layout(e)),
        Ok(layout) => layout,
    };
    match validate_raw_qualified_name(layout.name.as_str()) {
        Err(_) => Err(RawAggregateLayoutError::NotQualifiedName),
        Ok(()) => Ok(layout),
    }
}

} // verus!
