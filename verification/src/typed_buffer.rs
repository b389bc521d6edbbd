//! JavaScript typed arrays lent to native calls: which views are accepted,
//! the byte extent they lend, and the check that the backing storage did
//! not change before a call uses a pointer into it.
use vstd::prelude::*;

verus! {

/// N-API typed array type codes (`napi_typedarray_type`).
pub const INT8_ARRAY: i32 = 0;
pub const UINT8_ARRAY: i32 = 1;
pub const UINT8_CLAMPED_ARRAY: i32 = 2;
pub const INT16_ARRAY: i32 = 3;
pub const UINT16_ARRAY: i32 = 4;
pub const INT32_ARRAY: i32 = 5;
pub const UINT32_ARRAY: i32 = 6;
pub const FLOAT32_ARRAY: i32 = 7;
pub const FLOAT64_ARRAY: i32 = 8;
pub const BIGINT64_ARRAY: i32 = 9;
pub const BIGUINT64_ARRAY: i32 = 10;

/// Why a typed array view was refused.
#[derive(Clone, Copy, Debug, PartialEq, Eq, Structural)]
pub enum TypedBufferError {
    /// The value is not a Buffer or TypedArray.
    NotTypedArray,
    /// The view is backed by a SharedArrayBuffer.
    SharedArrayBuffer,
    /// The backing ArrayBuffer was detached.
    Detached,
    /// The element type has no COM buffer width.
    UnsupportedElementType,
    /// Element count times width overflowed.
    ByteLengthOverflow,
    /// A revalidated view no longer matches what was lent.
    StorageChanged,
    /// Wide string bytes are odd in number, shorter than a terminator, or
    /// lack the UTF-16 NUL terminator.
    WideStringUnterminated,
    /// ANSI string bytes lack the NUL terminator.
    AnsiStringUnterminated,
    /// A consumed array's length is not a multiple of its element width.
    InvalidElementWidth,
}

/// The byte width of each element of a typed array of the given type.
pub open spec fn spec_element_size(typed_array_type: i32) -> Option<usize> {
    if typed_array_type == INT8_ARRAY || typed_array_type == UINT8_ARRAY
        || typed_array_type == UINT8_CLAMPED_ARRAY {
        Some(1)
    } else if typed_array_type == INT16_ARRAY || typed_array_type == UINT16_ARRAY {
        Some(2)
    } else if typed_array_type == INT32_ARRAY || typed_array_type == UINT32_ARRAY
        || typed_array_type == FLOAT32_ARRAY {
        Some(4)
    } else if typed_array_type == FLOAT64_ARRAY || typed_array_type == BIGINT64_ARRAY
        || typed_array_type == BIGUINT64_ARRAY {
        Some(8)
    } else {
        None
    }
}

/// The element width of a typed array type.
pub fn typed_array_element_size(typed_array_type: i32) -> (r: Result<usize, TypedBufferError>)
    ensures
        r == (match spec_element_size(typed_array_type) {
            Some(w) => Ok::<usize, TypedBufferError>(w),
            None => Err(TypedBufferError::UnsupportedElementType),
        }),
{
    if typed_array_type == INT8_ARRAY || typed_array_type == UINT8_ARRAY
        || typed_array_type == UINT8_CLAMPED_ARRAY {
        Ok(1)
    } else if typed_array_type == INT16_ARRAY || typed_array_type == UINT16_ARRAY {
        Ok(2)
    } else if typed_array_type == INT32_ARRAY || typed_array_type == UINT32_ARRAY
        || typed_array_type == FLOAT32_ARRAY {
        Ok(4)
    } else if typed_array_type == FLOAT64_ARRAY || typed_array_type == BIGINT64_ARRAY
        || typed_array_type == BIGUINT64_ARRAY {
        Ok(8)
    } else {
        Err(TypedBufferError::UnsupportedElementType)
    }
}

/// What N-API reports about a JavaScript value offered as a buffer.
#[derive(Clone, Copy, Debug, PartialEq, Eq, Structural)]
pub struct TypedArrayObservation {
    /// `napi_is_typedarray`.
    pub is_typed_array: bool,
    /// The type code from `napi_get_typedarray_info`.
    pub typed_array_type: i32,
    /// The element count.
    pub length: usize,
    /// The address of the first element.
    pub data: usize,
    /// Whether the backing store is an `ArrayBuffer` (not shared).
    pub backed_by_array_buffer: bool,
    /// `napi_is_detached_arraybuffer` on the backing store.
    pub detached: bool,
    /// `napi_is_buffer`: a Node Buffer lends raw bytes.
    pub is_buffer: bool,
}

/// The extent of a typed array lent to a COM buffer.
#[derive(Clone, Copy, Debug, PartialEq, Eq, Structural)]
pub struct TypedBufferInfo {
    /// The first byte, or 0 when the view is empty.
    pub pointer: usize,
    pub byte_length: usize,
    pub source_element_size: usize,
    pub raw_bytes: bool,
    pub typed_array_type: i32,
}

/// The extent of an accepted view, or why it is refused.
pub open spec fn spec_typed_buffer_info(o: TypedArrayObservation) -> Result<TypedBufferInfo, TypedBufferError> {
    if !o.is_typed_array {
        Err(TypedBufferError::NotTypedArray)
    } else if !o.backed_by_array_buffer {
        Err(TypedBufferError::SharedArrayBuffer)
    } else if o.detached {
        Err(TypedBufferError::Detached)
    } else {
        match spec_element_size(o.typed_array_type) {
            None => Err(TypedBufferError::UnsupportedElementType),
            Some(w) => if o.length * w > usize::MAX {
                Err(TypedBufferError::ByteLengthOverflow)
            } else {
                let byte_length = (o.length * w) as usize;
                Ok(TypedBufferInfo {
                    pointer: if byte_length == 0 { 0 } else { o.data },
                    byte_length,
                    source_element_size: w,
                    raw_bytes: o.is_buffer,
                    typed_array_type: o.typed_array_type,
                })
            },
        }
    }
}

/// Accepts a typed array view for a COM buffer and computes its extent;
/// an empty view lends the null pointer.
pub fn typed_buffer_info(o: TypedArrayObservation) -> (r: Result<TypedBufferInfo, TypedBufferError>)
    ensures
        r == spec_typed_buffer_info(o),
{
    if !o.is_typed_array {
        return Err(TypedBufferError::NotTypedArray);
    }
    if !o.backed_by_array_buffer {
        return Err(TypedBufferError::SharedArrayBuffer);
    }
    if o.detached {
        return Err(TypedBufferError::Detached);
    }
    let source_element_size = match typed_array_element_size(o.typed_array_type) {
        Err(e) => return Err(e),
        Ok(w) => w,
    };
    let byte_length = match o.length.checked_mul(source_element_size) {
        None => return Err(TypedBufferError::ByteLengthOverflow),
        Some(n) => n,
    };
    Ok(TypedBufferInfo {
        pointer: if byte_length == 0 { 0 } else { o.data },
        byte_length,
        source_element_size,
        raw_bytes: o.is_buffer,
        typed_array_type: o.typed_array_type,
    })
}

/// A Buffer or Uint8Array lent as raw bytes.
#[derive(Clone, Copy, Debug, PartialEq, Eq, Structural)]
pub struct Uint8ArrayInfo {
    pub data: usize,
    pub length: usize,
}

/// A byte view, `None` for a value that is no Uint8Array, or why it is
/// refused.
pub open spec fn spec_uint8_array_info(o: TypedArrayObservation) -> Result<Option<Uint8ArrayInfo>, TypedBufferError> {
    if !o.is_typed_array {
        Ok(None)
    } else if !o.backed_by_array_buffer {
        Err(TypedBufferError::SharedArrayBuffer)
    } else if o.typed_array_type != UINT8_ARRAY {
        Ok(None)
    } else if o.detached {
        Err(TypedBufferError::Detached)
    } else {
        Ok(Some(Uint8ArrayInfo { data: o.data, length: o.length }))
    }
}

/// Recognizes a Buffer or Uint8Array: other typed arrays and other values
/// are no byte views; a shared or detached byte view is refused.
pub fn uint8_array_info(o: TypedArrayObservation) -> (r: Result<Option<Uint8ArrayInfo>, TypedBufferError>)
    ensures
        r == spec_uint8_array_info(o),
{
    if !o.is_typed_array {
        return Ok(None);
    }
    if !o.backed_by_array_buffer {
        return Err(TypedBufferError::SharedArrayBuffer);
    }
    if o.typed_array_type != UINT8_ARRAY {
        return Ok(None);
    }
    if o.detached {
        return Err(TypedBufferError::Detached);
    }
    Ok(Some(Uint8ArrayInfo { data: o.data, length: o.length }))
}

/// The revalidation of a lent COM buffer against what its TypedArray
/// reports now.
pub open spec fn spec_typed_buffer_owner_check(lent: TypedBufferInfo, current: Result<TypedBufferInfo, TypedBufferError>) -> Result<(), TypedBufferError> {
    match current {
        Err(e) => Err(e),
        Ok(c) => if c.pointer != lent.pointer || c.byte_length != lent.byte_length
            || c.typed_array_type != lent.typed_array_type {
            Err(TypedBufferError::StorageChanged)
        } else {
            Ok(())
        },
    }
}

/// A COM buffer may be used only while its TypedArray still has the
/// extent and type that were lent.
pub fn validate_typed_buffer_owner(lent: TypedBufferInfo, current: Result<TypedBufferInfo, TypedBufferError>) -> (r: Result<(), TypedBufferError>)
    ensures
        r == spec_typed_buffer_owner_check(lent, current),
{
    let info = match current {
        Err(e) => return Err(e),
        Ok(info) => info,
    };
    if info.pointer != lent.pointer || info.byte_length != lent.byte_length
        || info.typed_array_type != lent.typed_array_type {
        return Err(TypedBufferError::StorageChanged);
    }
    Ok(())
}

/// A pointer into a Uint8Array may be used only while the array is
/// attached and still has the length and (for a nonempty array) the
/// address that were lent; an empty array counts as the null address.
pub fn validate_uint8_array_owner(pointer: usize, length: usize, current_length: usize, current_data: usize, detached: bool) -> (r: Result<(), TypedBufferError>)
    ensures
        detached ==> r == Err::<(), TypedBufferError>(TypedBufferError::Detached),
        !detached ==> r == (if current_length != length
            || (if current_length == 0 { 0 } else { current_data }) != pointer {
            Err::<(), TypedBufferError>(TypedBufferError::StorageChanged)
        } else {
            Ok(())
        }),
{
    if detached {
        return Err(TypedBufferError::Detached);
    }
    let current_pointer = if current_length == 0 { 0 } else { current_data };
    if current_length != length || current_pointer != pointer {
        return Err(TypedBufferError::StorageChanged);
    }
    Ok(())
}

/// Bytes of a NUL-terminated UTF-16 string: an even count of at least two
/// that ends with two zero bytes.
pub open spec fn spec_wide_string_bytes_ok(bytes: Seq<u8>) -> bool {
    &&& bytes.len() >= 2
    &&& bytes.len() % 2 == 0
    &&& bytes[bytes.len() - 2] == 0
    &&& bytes[bytes.len() - 1] == 0
}

/// Checks bytes lent as a wide string.
pub fn validate_wide_string_bytes(bytes: &Vec<u8>) -> (r: Result<(), TypedBufferError>)
    ensures
        r is Ok <==> spec_wide_string_bytes_ok(bytes@),
        r is Err ==> r == Err::<(), TypedBufferError>(TypedBufferError::WideStringUnterminated),
{
    let n = bytes.len();
    if n < 2 || n % 2 != 0 {
        return Err(TypedBufferError::WideStringUnterminated);
    }
    if bytes[n - 2] != 0 || bytes[n - 1] != 0 {
        return Err(TypedBufferError::WideStringUnterminated);
    }
    Ok(())
}

/// Checks bytes lent as an ANSI string: the last byte is NUL.
pub fn validate_ansi_string_bytes(bytes: &Vec<u8>) -> (r: Result<(), TypedBufferError>)
    ensures
        r is Ok <==> (bytes@.len() >= 1 && bytes@[bytes@.len() - 1] == 0),
        r is Err ==> r == Err::<(), TypedBufferError>(TypedBufferError::AnsiStringUnterminated),
{
    let n = bytes.len();
    if n == 0 || bytes[n - 1] != 0 {
        return Err(TypedBufferError::AnsiStringUnterminated);
    }
    Ok(())
}

/// A consumed array result must split evenly into elements of `width`
/// bytes.
pub fn check_array_element_width(byte_length: usize, width: usize) -> (r: Result<(), TypedBufferError>)
    ensures
        r is Ok <==> (width != 0 && byte_length % width == 0),
        r is Err ==> r == Err::<(), TypedBufferError>(TypedBufferError::InvalidElementWidth),
{
    if width == 0 || byte_length % width != 0 {
        return Err(TypedBufferError::InvalidElementWidth);
    }
    Ok(())
}

/// A lent view stays usable while its TypedArray reports the same
/// observation, and a view whose storage moved, shrank or grew is refused.
pub proof fn lemma_revalidation(o: TypedArrayObservation, now: TypedArrayObservation)
    requires
        spec_typed_buffer_info(o) is Ok,
    ensures
        spec_typed_buffer_owner_check(spec_typed_buffer_info(o)->Ok_0, spec_typed_buffer_info(o)) is Ok,
        spec_typed_buffer_info(now) matches Ok(c) && c.byte_length != spec_typed_buffer_info(o)->Ok_0.byte_length
            ==> spec_typed_buffer_owner_check(spec_typed_buffer_info(o)->Ok_0, spec_typed_buffer_info(now))
                == Err::<(), TypedBufferError>(TypedBufferError::StorageChanged),
{
}

/// The extent lent covers exactly the view's elements, an empty view lends
/// the null pointer, and each element is 1, 2, 4 or 8 bytes wide.
pub proof fn lemma_lent_extent(o: TypedArrayObservation)
    requires
        spec_typed_buffer_info(o) is Ok,
    ensures
        ({
            let lent = spec_typed_buffer_info(o)->Ok_0;
            &&& lent.byte_length == o.length * lent.source_element_size
            &&& lent.byte_length == 0 ==> lent.pointer == 0
            &&& lent.byte_length != 0 ==> lent.pointer == o.data
            &&& lent.source_element_size == 1 || lent.source_element_size == 2
                || lent.source_element_size == 4 || lent.source_element_size == 8
        }),
{
}

} // verus!
