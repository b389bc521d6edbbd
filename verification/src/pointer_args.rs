//! Which JavaScript values may stand for a native pointer, a handle or a
//! string pointer, and how each is turned into pointer bits.
use vstd::prelude::*;
use crate::js_integer::{DynCom, JsBigInt, IntegerRangeError, MAX_SAFE_INTEGER, bigint_usize, spec_fits_u64};
use crate::typed_buffer::{
    Uint8ArrayInfo, TypedBufferError, validate_ansi_string_bytes, validate_wide_string_bytes,
    spec_wide_string_bytes_ok,
};

verus! {

/// What a JavaScript argument is, as far as pointer arguments care.
#[derive(Clone, Copy, Debug, PartialEq, Eq, Structural)]
pub enum JsArgKind {
    Null,
    Undefined,
    BigInt,
    Number,
    String,
    /// A Buffer or Uint8Array (other typed arrays are `Other`).
    ByteView(Uint8ArrayInfo),
    /// A wrapped runtime value.
    Wrapped,
    Other,
}

/// Where the pointer bits of an accepted argument come from.
#[derive(Clone, Copy, Debug, PartialEq, Eq, Structural)]
pub enum PointerRoute {
    /// `null` or `undefined`: the null pointer.
    Null,
    /// A bigint holding the bits.
    BigIntBits,
    /// A number holding the bits.
    NumberBits,
    /// The first byte of a byte view (null when empty), kept alive by the
    /// view.
    ByteView(Uint8ArrayInfo),
    /// Storage made from a JavaScript string.
    StringStorage,
}

/// Why a pointer-like argument was refused.
#[derive(Clone, Copy, Debug, PartialEq, Eq, Structural)]
pub enum PointerArgError {
    /// A wrapped runtime value cannot stand for raw pointer bits.
    WrappedValue,
    /// The value has none of the accepted kinds.
    Unexpected,
    /// `null` given for a parameter that is not nullable.
    NullNotNullable,
    /// A safe data pointer needs a byte view.
    NotByteView,
    /// A safe string pointer needs a string or a byte view.
    NotStringOrBytes,
    /// A byte view for a wide string is not aligned for UTF-16.
    WideStringMisaligned,
    /// An ANSI string given as text must be ASCII.
    NonAsciiString,
    /// A handle byte view must hold exactly one pointer width.
    HandleByteLength,
    /// A handle byte view has no backing storage.
    HandleNullStorage,
    /// A handle number is not a safe integer that fits in a pointer.
    HandleNumberRange,
    Bytes(TypedBufferError),
    Range(IntegerRangeError),
}

/// The route of an argument to a raw pointer parameter.
pub open spec fn spec_pointer_route(kind: JsArgKind) -> Result<PointerRoute, PointerArgError> {
    match kind {
        JsArgKind::Null | JsArgKind::Undefined => Ok(PointerRoute::Null),
        JsArgKind::BigInt => Ok(PointerRoute::BigIntBits),
        JsArgKind::Number => Ok(PointerRoute::NumberBits),
        JsArgKind::ByteView(info) => Ok(PointerRoute::ByteView(info)),
        JsArgKind::Wrapped => Err(PointerArgError::WrappedValue),
        _ => Err(PointerArgError::Unexpected),
    }
}

/// Routes an argument for a raw pointer parameter: nulls, bigints, numbers
/// and byte views are accepted; wrapped runtime values are refused, since
/// their borrowed COM pointer would look like an owned raw pointer.
pub fn pointer_route(kind: JsArgKind) -> (r: Result<PointerRoute, PointerArgError>)
    ensures
        r == spec_pointer_route(kind),
{
    match kind {
        JsArgKind::Null | JsArgKind::Undefined => Ok(PointerRoute::Null),
        JsArgKind::BigInt => Ok(PointerRoute::BigIntBits),
        JsArgKind::Number => Ok(PointerRoute::NumberBits),
        JsArgKind::ByteView(info) => Ok(PointerRoute::ByteView(info)),
        JsArgKind::Wrapped => Err(PointerArgError::WrappedValue),
        _ => Err(PointerArgError::Unexpected),
    }
}

/// `null` and `undefined` both stand for the null pointer, and they are the
/// only arguments that do: a raw pointer argument routes to the null
/// pointer exactly when it is one of them.
pub proof fn lemma_nullish_routes_to_null(kind: JsArgKind)
    ensures
        spec_pointer_route(kind) == Ok::<PointerRoute, PointerArgError>(PointerRoute::Null)
            <==> (kind is Null || kind is Undefined),
        spec_pointer_route(JsArgKind::Undefined) == spec_pointer_route(JsArgKind::Null),
{
}

/// A raw pointer argument is accepted exactly when it is `null`,
/// `undefined`, a bigint, a number or a byte view; a byte view lends its
/// own storage, a wrapped runtime value is refused as such, and any other
/// value as unexpected.
pub proof fn lemma_pointer_route_accepts(kind: JsArgKind)
    ensures
        spec_pointer_route(kind) is Ok
            <==> (kind is Null || kind is Undefined || kind is BigInt || kind is Number || kind is ByteView),
        kind is BigInt ==> spec_pointer_route(kind) == Ok::<PointerRoute, PointerArgError>(PointerRoute::BigIntBits),
        kind is Number ==> spec_pointer_route(kind) == Ok::<PointerRoute, PointerArgError>(PointerRoute::NumberBits),
        kind matches JsArgKind::ByteView(info)
            ==> spec_pointer_route(kind) == Ok::<PointerRoute, PointerArgError>(PointerRoute::ByteView(info)),
        kind is Wrapped ==> spec_pointer_route(kind) == Err::<PointerRoute, PointerArgError>(PointerArgError::WrappedValue),
        (kind is String || kind is Other)
            ==> spec_pointer_route(kind) == Err::<PointerRoute, PointerArgError>(PointerArgError::Unexpected),
{
}

/// The bits of a bigint pointer argument.
pub fn bigint_pointer_bits(value: &JsBigInt) -> (r: Result<usize, PointerArgError>)
    ensures
        spec_fits_u64(value@) && value@.words[0] <= usize::MAX
            ==> r == Ok::<usize, PointerArgError>(value@.words[0] as usize),
        !(spec_fits_u64(value@) && value@.words[0] <= usize::MAX)
            ==> r == Err::<usize, PointerArgError>(PointerArgError::Range(IntegerRangeError::PointerUnsigned)),
{
    match bigint_usize(value) {
        Ok(bits) => Ok(bits),
        Err(e) => Err(PointerArgError::Range(e)),
    }
}

/// The address a byte view lends: its first byte, or null when empty.
pub fn byte_view_pointer(info: Uint8ArrayInfo) -> (r: usize)
    ensures
        r == (if info.length == 0 { 0 } else { info.data }),
{
    if info.length == 0 { 0 } else { info.data }
}

/// The route of an argument to a safe data pointer: only byte views, and
/// `null` only where the parameter is nullable.
pub fn safe_data_pointer_route(kind: JsArgKind, nullable: bool) -> (r: Result<PointerRoute, PointerArgError>)
    ensures
        r == (match kind {
            JsArgKind::Null | JsArgKind::Undefined => if nullable {
                Ok(PointerRoute::Null)
            } else {
                Err(PointerArgError::NullNotNullable)
            },
            JsArgKind::ByteView(info) => Ok(PointerRoute::ByteView(info)),
            _ => Err(PointerArgError::NotByteView),
        }),
{
    match kind {
        JsArgKind::Null | JsArgKind::Undefined => if nullable {
            Ok(PointerRoute::Null)
        } else {
            Err(PointerArgError::NullNotNullable)
        },
        JsArgKind::ByteView(info) => Ok(PointerRoute::ByteView(info)),
        _ => Err(PointerArgError::NotByteView),
    }
}

/// The route of an argument to a wide string pointer: a string becomes
/// owned UTF-16 storage; a byte view must be aligned for UTF-16 and hold a
/// NUL-terminated wide string (`bytes` are its contents); anything else is
/// routed as a raw pointer.
pub fn wide_string_route(kind: JsArgKind, bytes: &Vec<u8>) -> (r: Result<PointerRoute, PointerArgError>)
    requires
        kind matches JsArgKind::ByteView(info) ==> bytes@.len() == info.length,
    ensures
        kind is String ==> r == Ok::<PointerRoute, PointerArgError>(PointerRoute::StringStorage),
        kind matches JsArgKind::ByteView(info) ==> r == (if info.data != 0 && info.data % 2 != 0 {
            Err::<PointerRoute, PointerArgError>(PointerArgError::WideStringMisaligned)
        } else if !spec_wide_string_bytes_ok(bytes@) {
            Err(PointerArgError::Bytes(TypedBufferError::WideStringUnterminated))
        } else {
            Ok(PointerRoute::ByteView(info))
        }),
        !(kind is String) && !(kind is ByteView) ==> r == spec_pointer_route(kind),
{
    match kind {
        JsArgKind::String => Ok(PointerRoute::StringStorage),
        JsArgKind::ByteView(info) => {
            if info.data != 0 && info.data % 2 != 0 {
                return Err(PointerArgError::WideStringMisaligned);
            }
            match validate_wide_string_bytes(bytes) {
                Err(e) => Err(PointerArgError::Bytes(e)),
                Ok(()) => Ok(PointerRoute::ByteView(info)),
            }
        },
        _ => pointer_route(kind),
    }
}

/// The route of an argument to an ANSI string pointer: a string becomes
/// owned NUL-terminated storage; a byte view must end with NUL (`bytes`
/// are its contents); anything else is routed as a raw pointer.
pub fn ansi_string_route(kind: JsArgKind, bytes: &Vec<u8>) -> (r: Result<PointerRoute, PointerArgError>)
    requires
        kind matches JsArgKind::ByteView(info) ==> bytes@.len() == info.length,
    ensures
        kind is String ==> r == Ok::<PointerRoute, PointerArgError>(PointerRoute::StringStorage),
        kind matches JsArgKind::ByteView(info) ==> r == (if bytes@.len() >= 1 && bytes@[bytes@.len() - 1] == 0 {
            Ok::<PointerRoute, PointerArgError>(PointerRoute::ByteView(info))
        } else {
            Err(PointerArgError::Bytes(TypedBufferError::AnsiStringUnterminated))
        }),
        !(kind is String) && !(kind is ByteView) ==> r == spec_pointer_route(kind),
{
    match kind {
        JsArgKind::String => Ok(PointerRoute::StringStorage),
        JsArgKind::ByteView(info) => match validate_ansi_string_bytes(bytes) {
            Err(e) => Err(PointerArgError::Bytes(e)),
            Ok(()) => Ok(PointerRoute::ByteView(info)),
        },
        _ => pointer_route(kind),
    }
}

/// The NUL-terminated storage of an ASCII string given as text.
pub fn ansi_string_storage(text: &str) -> (r: Result<Vec<u8>, PointerArgError>)
    ensures
        r is Ok <==> vstd::string::is_ascii(text),
        r is Err ==> r == Err::<Vec<u8>, PointerArgError>(PointerArgError::NonAsciiString),
        r matches Ok(v) ==> v@ == Seq::new(text@.len(), |i: int| text@[i] as u8).push(0u8),
{
    if !text.is_ascii() {
        return Err(PointerArgError::NonAsciiString);
    }
    proof {
        vstd::string::is_ascii_spec_bytes(text);
    }
    let bytes = text.as_bytes();
    let mut storage: Vec<u8> = Vec::new();
    let mut i: usize = 0;
    while i < bytes.len()
        invariant
            i <= bytes@.len(),
            bytes@ == Seq::new(text@.len(), |k: int| text@[k] as u8),
            storage@ == bytes@.subrange(0, i as int),
        decreases bytes@.len() - i,
    {
        storage.push(bytes[i]);
        i = i + 1;
    }
    storage.push(0u8);
    Ok(storage)
}

/// Whether the argument is `null` or `undefined`.
pub open spec fn spec_is_nullish(kind: JsArgKind) -> bool {
    kind is Null || kind is Undefined
}

/// The route of an argument to a safe string pointer: `null` only where
/// nullable; otherwise a string or a byte view, checked as a wide or an
/// ANSI string.
pub fn safe_string_route(kind: JsArgKind, nullable: bool, wide: bool, bytes: &Vec<u8>) -> (r: Result<PointerRoute, PointerArgError>)
    requires
        kind matches JsArgKind::ByteView(info) ==> bytes@.len() == info.length,
    ensures
        spec_is_nullish(kind) && nullable ==> r == Ok::<PointerRoute, PointerArgError>(PointerRoute::Null),
        spec_is_nullish(kind) && !nullable ==> r == Err::<PointerRoute, PointerArgError>(PointerArgError::NullNotNullable),
        !spec_is_nullish(kind) && !(kind is String) && !(kind is ByteView)
            ==> r == Err::<PointerRoute, PointerArgError>(PointerArgError::NotStringOrBytes),
        kind is String ==> r == Ok::<PointerRoute, PointerArgError>(PointerRoute::StringStorage),
        kind matches JsArgKind::ByteView(info) ==> r == (if !wide {
            if bytes@.len() >= 1 && bytes@[bytes@.len() - 1] == 0 {
                Ok::<PointerRoute, PointerArgError>(PointerRoute::ByteView(info))
            } else {
                Err(PointerArgError::Bytes(TypedBufferError::AnsiStringUnterminated))
            }
        } else if info.data != 0 && info.data % 2 != 0 {
            Err::<PointerRoute, PointerArgError>(PointerArgError::WideStringMisaligned)
        } else if !spec_wide_string_bytes_ok(bytes@) {
            Err(PointerArgError::Bytes(TypedBufferError::WideStringUnterminated))
        } else {
            Ok(PointerRoute::ByteView(info))
        }),
{
    match kind {
        JsArgKind::Null | JsArgKind::Undefined => if nullable {
            Ok(PointerRoute::Null)
        } else {
            Err(PointerArgError::NullNotNullable)
        },
        JsArgKind::String | JsArgKind::ByteView(_) => if wide {
            wide_string_route(kind, bytes)
        } else {
            ansi_string_route(kind, bytes)
        },
        _ => Err(PointerArgError::NotStringOrBytes),
    }
}

/// The value of little-endian bytes.
pub open spec fn spec_le_value(bytes: Seq<u8>) -> int
    decreases bytes.len(),
{
    if bytes.len() == 0 {
        0
    } else {
        bytes[0] + 256 * spec_le_value(bytes.drop_first())
    }
}

/// `256^n`.
pub open spec fn spec_pow256(n: nat) -> int
    decreases n,
{
    if n == 0 { 1 } else { 256 * spec_pow256((n - 1) as nat) }
}

proof fn lemma_le_value_bound(bytes: Seq<u8>)
    ensures
        0 <= spec_le_value(bytes) < spec_pow256(bytes.len()),
    decreases bytes.len(),
{
    if bytes.len() > 0 {
        lemma_le_value_bound(bytes.drop_first());
    }
}

proof fn lemma_le_value_prepend(bytes: Seq<u8>, i: int)
    requires
        0 <= i < bytes.len(),
    ensures
        spec_le_value(bytes.subrange(i, bytes.len() as int))
            == bytes[i] + 256 * spec_le_value(bytes.subrange(i + 1, bytes.len() as int)),
{
    assert(bytes.subrange(i, bytes.len() as int).drop_first() =~= bytes.subrange(i + 1, bytes.len() as int));
}

/// The handle bits held by a byte view: exactly one pointer width of
/// little-endian bytes, with backing storage.
pub fn handle_bits_from_bytes(info: Uint8ArrayInfo, bytes: &Vec<u8>) -> (r: Result<u64, PointerArgError>)
    requires
        bytes@.len() == info.length,
    ensures
        info.length != usize::BITS / 8 ==> r == Err::<u64, PointerArgError>(PointerArgError::HandleByteLength),
        info.length == usize::BITS / 8 && info.data == 0
            ==> r == Err::<u64, PointerArgError>(PointerArgError::HandleNullStorage),
        info.length == usize::BITS / 8 && info.data != 0
            ==> r == Ok::<u64, PointerArgError>(spec_le_value(bytes@) as u64),
        r matches Ok(v) ==> v == spec_le_value(bytes@),
{
    let width = (usize::BITS / 8) as usize;
    if info.length != width {
        return Err(PointerArgError::HandleByteLength);
    }
    if info.data == 0 {
        return Err(PointerArgError::HandleNullStorage);
    }
    let n = bytes.len();
    proof {
        lemma_le_value_bound(bytes@);
        assert(n == 4 || n == 8);
        reveal_with_fuel(spec_pow256, 9);
        assert(bytes@.subrange(n as int, n as int).len() == 0);
    }
    let mut value: u64 = 0;
    let mut i: usize = n;
    while i > 0
        invariant
            i <= n,
            n == bytes@.len(),
            n <= 8,
            value == spec_le_value(bytes@.subrange(i as int, n as int)),
            spec_le_value(bytes@) < 0x1_0000_0000_0000_0000,
        decreases i,
    {
        i = i - 1;
        proof {
            lemma_le_value_prepend(bytes@, i as int);
            lemma_le_value_bound(bytes@.subrange(i as int, n as int));
            lemma_le_value_bound(bytes@.subrange(i as int + 1, n as int));
            reveal_with_fuel(spec_pow256, 9);
            assert(spec_pow256((n - i) as nat) <= 0x1_0000_0000_0000_0000) by {
                assert(n - i <= 8);
                lemma_pow256_monotone((n - i) as nat, 8);
            }
            assert(spec_pow256((n - i - 1) as nat) * 256 == spec_pow256((n - i) as nat));
        }
        value = value * 256 + bytes[i] as u64;
    }
    proof {
        assert(bytes@.subrange(0, n as int) =~= bytes@);
    }
    Ok(value)
}

/// A JavaScript argument for a handle value, with a number already read
/// as the non-negative integer it holds.
pub enum HandleArgument {
    BigInt(JsBigInt),
    /// A number that is finite, non-negative and integral.
    Integer(u64),
    /// A Buffer or Uint8Array and the bytes it holds.
    ByteView(Uint8ArrayInfo, Vec<u8>),
    Other,
}

/// A handle argument whose byte view, where it is read, reports the bytes
/// it holds.
pub open spec fn handle_argument_wf(arg: HandleArgument) -> bool {
    arg matches HandleArgument::ByteView(info, bytes)
        ==> (info.length == usize::BITS / 8 && info.data != 0 ==> bytes@.len() == info.length)
}

/// The handle bits an argument stands for.
pub open spec fn spec_handle_value(arg: HandleArgument) -> Result<u64, PointerArgError> {
    match arg {
        HandleArgument::BigInt(b) => if spec_fits_u64(b@) && b@.words[0] <= usize::MAX {
            Ok(b@.words[0])
        } else {
            Err(PointerArgError::Range(IntegerRangeError::PointerUnsigned))
        },
        HandleArgument::Integer(n) => if n <= MAX_SAFE_INTEGER && n <= usize::MAX {
            Ok(n)
        } else {
            Err(PointerArgError::HandleNumberRange)
        },
        HandleArgument::ByteView(info, bytes) => if info.length != usize::BITS / 8 {
            Err(PointerArgError::HandleByteLength)
        } else if info.data == 0 {
            Err(PointerArgError::HandleNullStorage)
        } else {
            Ok(spec_le_value(bytes@) as u64)
        },
        HandleArgument::Other => Err(PointerArgError::Unexpected),
    }
}

/// The handle bits of an argument: a bigint or a safe integer that fits in
/// a pointer, or a byte view of exactly one pointer width read
/// little-endian.
pub fn handle_value(arg: &HandleArgument) -> (r: Result<u64, PointerArgError>)
    requires
        handle_argument_wf(*arg),
    ensures
        r == spec_handle_value(*arg),
{
    match arg {
        HandleArgument::BigInt(b) => match bigint_usize(b) {
            Ok(bits) => Ok(bits as u64),
            Err(e) => Err(PointerArgError::Range(e)),
        },
        HandleArgument::Integer(n) => {
            if *n > MAX_SAFE_INTEGER as u64 || *n > usize::MAX as u64 {
                Err(PointerArgError::HandleNumberRange)
            } else {
                Ok(*n)
            }
        },
        HandleArgument::ByteView(info, bytes) => {
            if info.length != (usize::BITS / 8) as usize {
                Err(PointerArgError::HandleByteLength)
            } else if info.data == 0 {
                Err(PointerArgError::HandleNullStorage)
            } else {
                handle_bits_from_bytes(*info, bytes)
            }
        },
        HandleArgument::Other => Err(PointerArgError::Unexpected),
    }
}

impl DynCom {
    /// The route of a wide string pointer argument (see
    /// [`wide_string_route`]).
    pub fn wide_string_pointer(kind: JsArgKind, bytes: &Vec<u8>) -> (r: Result<PointerRoute, PointerArgError>)
        requires
            kind matches JsArgKind::ByteView(info) ==> bytes@.len() == info.length,
        ensures
            kind is String ==> r == Ok::<PointerRoute, PointerArgError>(PointerRoute::StringStorage),
            kind matches JsArgKind::ByteView(info) ==> r == (if info.data != 0 && info.data % 2 != 0 {
                Err::<PointerRoute, PointerArgError>(PointerArgError::WideStringMisaligned)
            } else if !spec_wide_string_bytes_ok(bytes@) {
                Err(PointerArgError::Bytes(TypedBufferError::WideStringUnterminated))
            } else {
                Ok(PointerRoute::ByteView(info))
            }),
            !(kind is String) && !(kind is ByteView) ==> r == spec_pointer_route(kind),
    {
        wide_string_route(kind, bytes)
    }

    /// The route of an ANSI string pointer argument (see
    /// [`ansi_string_route`]).
    pub fn ansi_string_pointer(kind: JsArgKind, bytes: &Vec<u8>) -> (r: Result<PointerRoute, PointerArgError>)
        requires
            kind matches JsArgKind::ByteView(info) ==> bytes@.len() == info.length,
        ensures
            kind is String ==> r == Ok::<PointerRoute, PointerArgError>(PointerRoute::StringStorage),
            kind matches JsArgKind::ByteView(info) ==> r == (if bytes@.len() >= 1 && bytes@[bytes@.len() - 1] == 0 {
                Ok::<PointerRoute, PointerArgError>(PointerRoute::ByteView(info))
            } else {
                Err(PointerArgError::Bytes(TypedBufferError::AnsiStringUnterminated))
            }),
            !(kind is String) && !(kind is ByteView) ==> r == spec_pointer_route(kind),
    {
        ansi_string_route(kind, bytes)
    }

    /// The handle bits of an argument (see [`handle_value`]).
    pub fn handle_value(arg: &HandleArgument) -> (r: Result<u64, PointerArgError>)
        requires
            handle_argument_wf(*arg),
        ensures
            r == spec_handle_value(*arg),
    {
        handle_value(arg)
    }
}

/// Entry points that take raw addresses and handles, kept apart from the
/// safe ones.
pub struct DynComUnsafe;

impl DynComUnsafe {
    /// The route of a raw pointer argument (see [`pointer_route`]).
    pub fn pointer(kind: JsArgKind) -> (r: Result<PointerRoute, PointerArgError>)
        ensures
            r == spec_pointer_route(kind),
    {
        pointer_route(kind)
    }

    /// The route of a wide string pointer argument (see
    /// [`wide_string_route`]).
    pub fn wide_string_pointer(kind: JsArgKind, bytes: &Vec<u8>) -> (r: Result<PointerRoute, PointerArgError>)
        requires
            kind matches JsArgKind::ByteView(info) ==> bytes@.len() == info.length,
        ensures
            kind is String ==> r == Ok::<PointerRoute, PointerArgError>(PointerRoute::StringStorage),
            kind matches JsArgKind::ByteView(info) ==> r == (if info.data != 0 && info.data % 2 != 0 {
                Err::<PointerRoute, PointerArgError>(PointerArgError::WideStringMisaligned)
            } else if !spec_wide_string_bytes_ok(bytes@) {
                Err(PointerArgError::Bytes(TypedBufferError::WideStringUnterminated))
            } else {
                Ok(PointerRoute::ByteView(info))
            }),
            !(kind is String) && !(kind is ByteView) ==> r == spec_pointer_route(kind),
    {
        wide_string_route(kind, bytes)
    }

    /// The route of an ANSI string pointer argument (see
    /// [`ansi_string_route`]).
    pub fn ansi_string_pointer(kind: JsArgKind, bytes: &Vec<u8>) -> (r: Result<PointerRoute, PointerArgError>)
        requires
            kind matches JsArgKind::ByteView(info) ==> bytes@.len() == info.length,
        ensures
            kind is String ==> r == Ok::<PointerRoute, PointerArgError>(PointerRoute::StringStorage),
            kind matches JsArgKind::ByteView(info) ==> r == (if bytes@.len() >= 1 && bytes@[bytes@.len() - 1] == 0 {
                Ok::<PointerRoute, PointerArgError>(PointerRoute::ByteView(info))
            } else {
                Err(PointerArgError::Bytes(TypedBufferError::AnsiStringUnterminated))
            }),
            !(kind is String) && !(kind is ByteView) ==> r == spec_pointer_route(kind),
    {
        ansi_string_route(kind, bytes)
    }

    /// The handle bits of an argument (see [`handle_value`]).
    pub fn handle_value(arg: &HandleArgument) -> (r: Result<u64, PointerArgError>)
        requires
            handle_argument_wf(*arg),
        ensures
            r == spec_handle_value(*arg),
    {
        handle_value(arg)
    }
}

proof fn lemma_pow256_monotone(a: nat, b: nat)
    requires
        a <= b,
    ensures
        spec_pow256(a) <= spec_pow256(b),
    decreases b,
{
    if a < b {
        lemma_pow256_monotone(a, (b - 1) as nat);
        lemma_pow256_positive((b - 1) as nat);
    }
}

proof fn lemma_pow256_positive(n: nat)
    ensures
        spec_pow256(n) >= 1,
    decreases n,
{
    if n > 0 {
        lemma_pow256_positive((n - 1) as nat);
    }
}

} // verus!
