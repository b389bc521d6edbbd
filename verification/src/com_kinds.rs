//! The names by which JavaScript sees the element and value types of COM
//! Automation values, and the value types a progress callback accepts.
use vstd::prelude::*;

verus! {

/// The element type of a SAFEARRAY.
#[derive(Clone, Copy, Debug, PartialEq, Eq, Structural)]
pub enum SafeArrayElementType {
    I8,
    U8,
    I16,
    U16,
    I32,
    U32,
    I64,
    U64,
    F32,
    F64,
    Bool,
    Bstr,
    Unknown,
    Dispatch,
    Variant,
}

/// The value type held by a VARIANT.
#[derive(Clone, Copy, Debug, PartialEq, Eq, Structural)]
pub enum VariantType {
    Empty,
    Null,
    I8,
    U8,
    I16,
    U16,
    I32,
    U32,
    I64,
    U64,
    Int,
    UInt,
    F32,
    F64,
    Bool,
    Bstr,
    Unknown,
    Dispatch,
    SafeArray(SafeArrayElementType),
}

/// The value type held by a PROPVARIANT; a vector holds elements of one
/// scalar type.
#[derive(Clone, Copy, Debug, PartialEq, Eq, Structural)]
pub enum PropVariantType {
    Empty,
    Null,
    I8,
    U8,
    I16,
    U16,
    I32,
    U32,
    I64,
    U64,
    Int,
    UInt,
    F32,
    F64,
    Bool,
    String,
    Guid,
    FileTime,
    Blob,
    Vector(SafeArrayElementType),
}

/// The name of a SAFEARRAY element type.
pub open spec fn spec_safe_array_element_name(t: SafeArrayElementType) -> &'static str {
    match t {
        SafeArrayElementType::I8 => "i8",
        SafeArrayElementType::U8 => "u8",
        SafeArrayElementType::I16 => "i16",
        SafeArrayElementType::U16 => "u16",
        SafeArrayElementType::I32 => "i32",
        SafeArrayElementType::U32 => "u32",
        SafeArrayElementType::I64 => "i64",
        SafeArrayElementType::U64 => "u64",
        SafeArrayElementType::F32 => "f32",
        SafeArrayElementType::F64 => "f64",
        SafeArrayElementType::Bool => "bool",
        SafeArrayElementType::Bstr => "bstr",
        SafeArrayElementType::Unknown => "unknown",
        SafeArrayElementType::Dispatch => "dispatch",
        SafeArrayElementType::Variant => "variant",
    }
}

/// The name of a SAFEARRAY element type.
pub fn safe_array_element_kind(t: SafeArrayElementType) -> (r: &'static str)
    ensures
        r == spec_safe_array_element_name(t),
{
    match t {
        SafeArrayElementType::I8 => "i8",
        SafeArrayElementType::U8 => "u8",
        SafeArrayElementType::I16 => "i16",
        SafeArrayElementType::U16 => "u16",
        SafeArrayElementType::I32 => "i32",
        SafeArrayElementType::U32 => "u32",
        SafeArrayElementType::I64 => "i64",
        SafeArrayElementType::U64 => "u64",
        SafeArrayElementType::F32 => "f32",
        SafeArrayElementType::F64 => "f64",
        SafeArrayElementType::Bool => "bool",
        SafeArrayElementType::Bstr => "bstr",
        SafeArrayElementType::Unknown => "unknown",
        SafeArrayElementType::Dispatch => "dispatch",
        SafeArrayElementType::Variant => "variant",
    }
}

/// Whether two strings hold the same characters.
fn same_text(a: &str, b: &str) -> (r: bool)
    ensures
        r == (a@ == b@),
{
    let a = a.to_owned();
    let b = b.to_owned();
    a == b
}

/// The element type named `name`, or `None` for an unsupported name.
pub open spec fn spec_safe_array_element_from_name(name: Seq<char>) -> Option<SafeArrayElementType> {
    if name == "i8"@ { Some(SafeArrayElementType::I8) }
    else if name == "u8"@ { Some(SafeArrayElementType::U8) }
    else if name == "i16"@ { Some(SafeArrayElementType::I16) }
    else if name == "u16"@ { Some(SafeArrayElementType::U16) }
    else if name == "i32"@ { Some(SafeArrayElementType::I32) }
    else if name == "u32"@ { Some(SafeArrayElementType::U32) }
    else if name == "i64"@ { Some(SafeArrayElementType::I64) }
    else if name == "u64"@ { Some(SafeArrayElementType::U64) }
    else if name == "f32"@ { Some(SafeArrayElementType::F32) }
    else if name == "f64"@ { Some(SafeArrayElementType::F64) }
    else if name == "bool"@ { Some(SafeArrayElementType::Bool) }
    else if name == "bstr"@ { Some(SafeArrayElementType::Bstr) }
    else if name == "unknown"@ { Some(SafeArrayElementType::Unknown) }
    else if name == "dispatch"@ { Some(SafeArrayElementType::Dispatch) }
    else if name == "variant"@ { Some(SafeArrayElementType::Variant) }
    else { None }
}

/// A SAFEARRAY element type name that is not supported.
#[derive(Clone, Copy, Debug, PartialEq, Eq, Structural)]
pub struct UnsupportedElementTypeName;

/// The SAFEARRAY element type with the given name.
pub fn safe_array_element_type_from_name(name: &str) -> (r: Result<SafeArrayElementType, UnsupportedElementTypeName>)
    ensures
        r == (match spec_safe_array_element_from_name(name@) {
            Some(t) => Ok::<SafeArrayElementType, UnsupportedElementTypeName>(t),
            None => Err(UnsupportedElementTypeName),
        }),
{
    if same_text(name, "i8") { Ok(SafeArrayElementType::I8) }
    else if same_text(name, "u8") { Ok(SafeArrayElementType::U8) }
    else if same_text(name, "i16") { Ok(SafeArrayElementType::I16) }
    else if same_text(name, "u16") { Ok(SafeArrayElementType::U16) }
    else if same_text(name, "i32") { Ok(SafeArrayElementType::I32) }
    else if same_text(name, "u32") { Ok(SafeArrayElementType::U32) }
    else if same_text(name, "i64") { Ok(SafeArrayElementType::I64) }
    else if same_text(name, "u64") { Ok(SafeArrayElementType::U64) }
    else if same_text(name, "f32") { Ok(SafeArrayElementType::F32) }
    else if same_text(name, "f64") { Ok(SafeArrayElementType::F64) }
    else if same_text(name, "bool") { Ok(SafeArrayElementType::Bool) }
    else if same_text(name, "bstr") { Ok(SafeArrayElementType::Bstr) }
    else if same_text(name, "unknown") { Ok(SafeArrayElementType::Unknown) }
    else if same_text(name, "dispatch") { Ok(SafeArrayElementType::Dispatch) }
    else if same_text(name, "variant") { Ok(SafeArrayElementType::Variant) }
    else { Err(UnsupportedElementTypeName) }
}

/// The name of a VARIANT value type; every SAFEARRAY is `safeArray`.
pub open spec fn spec_variant_name(t: VariantType) -> &'static str {
    match t {
        VariantType::Empty => "empty",
        VariantType::Null => "null",
        VariantType::I8 => "i8",
        VariantType::U8 => "u8",
        VariantType::I16 => "i16",
        VariantType::U16 => "u16",
        VariantType::I32 => "i32",
        VariantType::U32 => "u32",
        VariantType::I64 => "i64",
        VariantType::U64 => "u64",
        VariantType::Int => "int",
        VariantType::UInt => "uint",
        VariantType::F32 => "f32",
        VariantType::F64 => "f64",
        VariantType::Bool => "bool",
        VariantType::Bstr => "bstr",
        VariantType::Unknown => "unknown",
        VariantType::Dispatch => "dispatch",
        VariantType::SafeArray(_) => "safeArray",
    }
}

/// The name of a VARIANT value type.
pub fn variant_kind(t: VariantType) -> (r: &'static str)
    ensures
        r == spec_variant_name(t),
{
    match t {
        VariantType::Empty => "empty",
        VariantType::Null => "null",
        VariantType::I8 => "i8",
        VariantType::U8 => "u8",
        VariantType::I16 => "i16",
        VariantType::U16 => "u16",
        VariantType::I32 => "i32",
        VariantType::U32 => "u32",
        VariantType::I64 => "i64",
        VariantType::U64 => "u64",
        VariantType::Int => "int",
        VariantType::UInt => "uint",
        VariantType::F32 => "f32",
        VariantType::F64 => "f64",
        VariantType::Bool => "bool",
        VariantType::Bstr => "bstr",
        VariantType::Unknown => "unknown",
        VariantType::Dispatch => "dispatch",
        VariantType::SafeArray(_) => "safeArray",
    }
}

/// The name of a PROPVARIANT value type; every vector is `vector`.
pub open spec fn spec_propvariant_name(t: PropVariantType) -> &'static str {
    match t {
        PropVariantType::Empty => "empty",
        PropVariantType::Null => "null",
        PropVariantType::I8 => "i8",
        PropVariantType::U8 => "u8",
        PropVariantType::I16 => "i16",
        PropVariantType::U16 => "u16",
        PropVariantType::I32 => "i32",
        PropVariantType::U32 => "u32",
        PropVariantType::I64 => "i64",
        PropVariantType::U64 => "u64",
        PropVariantType::Int => "int",
        PropVariantType::UInt => "uint",
        PropVariantType::F32 => "f32",
        PropVariantType::F64 => "f64",
        PropVariantType::Bool => "bool",
        PropVariantType::String => "string",
        PropVariantType::Guid => "guid",
        PropVariantType::FileTime => "filetime",
        PropVariantType::Blob => "blob",
        PropVariantType::Vector(_) => "vector",
    }
}

/// The name of a PROPVARIANT value type.
pub fn propvariant_kind(t: PropVariantType) -> (r: &'static str)
    ensures
        r == spec_propvariant_name(t),
{
    match t {
        PropVariantType::Empty => "empty",
        PropVariantType::Null => "null",
        PropVariantType::I8 => "i8",
        PropVariantType::U8 => "u8",
        PropVariantType::I16 => "i16",
        PropVariantType::U16 => "u16",
        PropVariantType::I32 => "i32",
        PropVariantType::U32 => "u32",
        PropVariantType::I64 => "i64",
        PropVariantType::U64 => "u64",
        PropVariantType::Int => "int",
        PropVariantType::UInt => "uint",
        PropVariantType::F32 => "f32",
        PropVariantType::F64 => "f64",
        PropVariantType::Bool => "bool",
        PropVariantType::String => "string",
        PropVariantType::Guid => "guid",
        PropVariantType::FileTime => "filetime",
        PropVariantType::Blob => "blob",
        PropVariantType::Vector(_) => "vector",
    }
}

/// Every SAFEARRAY element type is found again by its name.
pub proof fn lemma_element_name_roundtrip(t: SafeArrayElementType)
    ensures
        spec_safe_array_element_from_name(spec_safe_array_element_name(t)@) == Some(t),
{
    reveal_strlit("i8");
    reveal_strlit("u8");
    reveal_strlit("i16");
    reveal_strlit("u16");
    reveal_strlit("i32");
    reveal_strlit("u32");
    reveal_strlit("i64");
    reveal_strlit("u64");
    reveal_strlit("f32");
    reveal_strlit("f64");
    reveal_strlit("bool");
    reveal_strlit("bstr");
    reveal_strlit("unknown");
    reveal_strlit("dispatch");
    reveal_strlit("variant");
    let names: Seq<Seq<char>> = seq!["i8"@, "u8"@, "i16"@, "u16"@, "i32"@, "u32"@, "i64"@, "u64"@,
        "f32"@, "f64"@, "bool"@, "bstr"@, "unknown"@, "dispatch"@, "variant"@];
    assert forall|i: int, j: int| 0 <= i < j < names.len() implies names[i] != names[j] by {
        if names[i].len() == names[j].len() {
            if names[i][0] == names[j][0] {
                assert(names[i][1] != names[j][1] || names[i][2] != names[j][2]);
            }
        }
    }
}

/// A SAFEARRAY with more elements than one dimension can count.
#[derive(Clone, Copy, Debug, PartialEq, Eq, Structural)]
pub struct SafeArrayLengthExceedsU32;

/// The single dimension given to a SAFEARRAY made without explicit bounds:
/// lower bound 0 and one element per value.
pub fn default_safe_array_bound(count: usize) -> (r: Result<(i32, u32), SafeArrayLengthExceedsU32>)
    ensures
        count <= u32::MAX ==> r == Ok::<(i32, u32), SafeArrayLengthExceedsU32>((0i32, count as u32)),
        count > u32::MAX ==> r == Err::<(i32, u32), SafeArrayLengthExceedsU32>(SafeArrayLengthExceedsU32),
{
    if count > 0xffff_ffffusize {
        return Err(SafeArrayLengthExceedsU32);
    }
    Ok((0, count as u32))
}

/// The shape of a WinRT type, as far as progress callbacks care.
#[derive(Clone, Copy, Debug, PartialEq, Eq, Structural)]
pub enum TypeShape {
    Bool,
    I8,
    U8,
    I16,
    U16,
    Char16,
    I32,
    U32,
    I64,
    U64,
    F32,
    F64,
    HString,
    Object,
    HResult,
    Guid,
    Interface,
    Delegate,
    IAsyncAction,
    IAsyncActionWithProgress,
    IAsyncOperation,
    IAsyncOperationWithProgress,
    RuntimeClass,
    Parameterized,
    Generic,
    Enum,
    Struct,
    ArrayOfIUnknown,
    OutValue,
    Array,
}

/// A progress type that a progress callback cannot carry.
#[derive(Clone, Copy, Debug, PartialEq, Eq, Structural)]
pub struct UnsupportedProgressType(pub TypeShape);

/// Progress callbacks carry every value type but GUIDs, arrays, open
/// generic types and out-parameter shapes.
pub open spec fn spec_progress_type_supported(t: TypeShape) -> bool {
    !(t is Guid || t is ArrayOfIUnknown || t is Generic || t is OutValue || t is Array)
}

/// Checks that a progress callback can carry values of this type.
pub fn ensure_progress_type_supported(t: TypeShape) -> (r: Result<(), UnsupportedProgressType>)
    ensures
        r is Ok <==> spec_progress_type_supported(t),
        r matches Err(e) ==> e.0 == t,
{
    match t {
        TypeShape::Guid | TypeShape::ArrayOfIUnknown | TypeShape::Generic | TypeShape::OutValue
        | TypeShape::Array => Err(UnsupportedProgressType(t)),
        _ => Ok(()),
    }
}

} // verus!
