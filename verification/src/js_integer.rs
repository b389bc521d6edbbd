//! JavaScript bigint arguments and their checked conversion to the fixed
//! width integers of COM signatures.
use vstd::prelude::*;

verus! {

/// A JavaScript bigint as N-API hands it over: a sign and the 64-bit words
/// of the magnitude, least significant first. There is always a word.
#[derive(Debug)]
pub struct JsBigInt {
    sign_bit: bool,
    words: Vec<u64>,
}

/// The plain value of a bigint.
pub struct BigIntModel {
    pub sign_bit: bool,
    pub words: Seq<u64>,
}

impl JsBigInt {
    #[verifier::type_invariant]
    spec fn has_word(self) -> bool {
        self.words.len() >= 1
    }
}

impl View for JsBigInt {
    type V = BigIntModel;

    closed spec fn view(&self) -> BigIntModel {
        BigIntModel { sign_bit: self.sign_bit, words: self.words@ }
    }
}

/// The magnitude that little-endian 64-bit words spell.
pub open spec fn spec_magnitude(words: Seq<u64>) -> int
    decreases words.len(),
{
    if words.len() == 0 {
        0
    } else {
        words[0] + 0x1_0000_0000_0000_0000 * spec_magnitude(words.drop_first())
    }
}

/// The integer a bigint stands for.
pub open spec fn spec_bigint_value(b: BigIntModel) -> int {
    if b.sign_bit { -spec_magnitude(b.words) } else { spec_magnitude(b.words) }
}

/// What `BigInt::get_u64` returns: the sign, the lowest word, and whether
/// the value is a non-negative single word.
pub open spec fn spec_get_u64(b: BigIntModel) -> (bool, u64, bool) {
    (b.sign_bit, b.words[0], !b.sign_bit && b.words.len() == 1)
}

/// The lowest word read as a two's complement `i64`.
pub open spec fn spec_low_word_signed(w: u64) -> int {
    if w < 0x8000_0000_0000_0000 { w as int } else { w - 0x1_0000_0000_0000_0000 }
}

/// What `BigInt::get_i64` returns: the lowest word with the sign applied,
/// and whether that is exact.
pub open spec fn spec_get_i64(b: BigIntModel) -> (i64, bool) {
    let w = b.words[0];
    if b.sign_bit && w == 0x8000_0000_0000_0000 {
        (i64::MIN, b.words.len() == 1)
    } else {
        (
            (if b.sign_bit { -spec_low_word_signed(w) } else { spec_low_word_signed(w) }) as i64,
            b.words.len() == 1 && w < 0x8000_0000_0000_0000,
        )
    }
}

/// Calls `napi::bindgen_prelude::BigInt::get_u64`, which returns the sign
/// bit, the first word, and whether the bigint is a non-negative single word.
#[verifier::external_body]
fn napi_get_u64(value: &JsBigInt) -> (r: (bool, u64, bool))
    requires
        value@.words.len() >= 1,
    ensures
        r == spec_get_u64(value@),
{
    let bigint = napi::bindgen_prelude::BigInt { sign_bit: value.sign_bit, words: value.words.clone() };
    bigint.get_u64()
}

/// Calls `napi::bindgen_prelude::BigInt::get_i64`, which returns the first
/// word as an `i64` with the sign applied (`i64::MIN` for the magnitude
/// `2^63` with the sign set) and whether the bigint is a single word that
/// this represents exactly.
#[verifier::external_body]
fn napi_get_i64(value: &JsBigInt) -> (r: (i64, bool))
    requires
        value@.words.len() >= 1,
    ensures
        r == spec_get_i64(value@),
{
    let bigint = napi::bindgen_prelude::BigInt { sign_bit: value.sign_bit, words: value.words.clone() };
    bigint.get_i64()
}

/// Which integer range a bigint did not fit.
#[derive(Clone, Copy, Debug, PartialEq, Eq, Structural)]
pub enum IntegerRangeError {
    Signed64,
    Unsigned64,
    PointerSigned,
    PointerUnsigned,
    BufferLength,
    /// Outside the range a JavaScript number holds exactly.
    SafeInteger,
}

/// A single non-negative word.
pub open spec fn spec_fits_u64(b: BigIntModel) -> bool {
    !b.sign_bit && b.words.len() == 1
}

/// A single word whose signed value fits an `i64`.
pub open spec fn spec_fits_i64(b: BigIntModel) -> bool {
    spec_get_i64(b).1
}

impl JsBigInt {
    /// The bigint of an unsigned value.
    pub fn from_u64(value: u64) -> (r: JsBigInt)
        ensures
            r@.sign_bit == false,
            r@.words == seq![value],
            spec_bigint_value(r@) == value,
    {
        let r = JsBigInt { sign_bit: false, words: vec![value] };
        proof {
            reveal_with_fuel(spec_magnitude, 2);
            assert(r@.words.drop_first().len() == 0);
        }
        r
    }

    /// The bigint of a signed value: its sign and its magnitude.
    pub fn from_i64(value: i64) -> (r: JsBigInt)
        ensures
            r@.sign_bit == (value < 0),
            r@.words == seq![(if value < 0 { -value } else { value as int }) as u64],
            spec_bigint_value(r@) == value,
    {
        let magnitude: u64 = if value < 0 {
            if value == i64::MIN { 0x8000_0000_0000_0000u64 } else { (-value) as u64 }
        } else {
            value as u64
        };
        let r = JsBigInt { sign_bit: value < 0, words: vec![magnitude] };
        proof {
            reveal_with_fuel(spec_magnitude, 2);
            assert(r@.words.drop_first().len() == 0);
        }
        r
    }

    /// A bigint from its sign and words; no words stands for zero, as N-API
    /// reports for `0n`.
    pub fn from_words(sign_bit: bool, words: Vec<u64>) -> (r: JsBigInt)
        ensures
            r@.sign_bit == sign_bit,
            words.len() == 0 ==> r@.words == seq![0u64],
            words.len() > 0 ==> r@.words == words@,
    {
        if words.len() == 0 {
            JsBigInt { sign_bit, words: vec![0u64] }
        } else {
            JsBigInt { sign_bit, words }
        }
    }

    /// The sign bit.
    pub fn sign_bit(&self) -> (r: bool)
        ensures
            r == self@.sign_bit,
    {
        self.sign_bit
    }

    /// The words of the magnitude, least significant first.
    pub fn words(&self) -> (r: &Vec<u64>)
        ensures
            r@ == self@.words,
            r@.len() >= 1,
    {
        proof {
            use_type_invariant(self);
        }
        &self.words
    }
}

/// A single word spells its own value.
proof fn lemma_single_word(b: BigIntModel)
    requires
        b.words.len() == 1,
    ensures
        spec_magnitude(b.words) == b.words[0],
{
    reveal_with_fuel(spec_magnitude, 2);
    assert(b.words.drop_first().len() == 0);
}

/// The bigint as a `u64`: refused when negative or wider than one word.
pub fn bigint_u64(value: &JsBigInt) -> (r: Result<u64, IntegerRangeError>)
    ensures
        spec_fits_u64(value@) ==> r == Ok::<u64, IntegerRangeError>(value@.words[0]),
        !spec_fits_u64(value@) ==> r == Err::<u64, IntegerRangeError>(IntegerRangeError::Unsigned64),
        r matches Ok(v) ==> v == spec_bigint_value(value@),
{
    proof {
        use_type_invariant(value);
    }
    let (negative, bits, lossless) = napi_get_u64(value);
    if !negative && lossless {
        proof {
            lemma_single_word(value@);
        }
        Ok(bits)
    } else {
        Err(IntegerRangeError::Unsigned64)
    }
}

/// The bigint as an `i64`: refused unless it is a single word whose
/// signed value fits.
pub fn bigint_i64(value: &JsBigInt) -> (r: Result<i64, IntegerRangeError>)
    ensures
        spec_fits_i64(value@) ==> r == Ok::<i64, IntegerRangeError>(spec_get_i64(value@).0),
        !spec_fits_i64(value@) ==> r == Err::<i64, IntegerRangeError>(IntegerRangeError::Signed64),
        r matches Ok(v) ==> v == spec_bigint_value(value@),
{
    proof {
        use_type_invariant(value);
    }
    let (bits, lossless) = napi_get_i64(value);
    if lossless {
        proof {
            lemma_single_word(value@);
        }
        Ok(bits)
    } else {
        Err(IntegerRangeError::Signed64)
    }
}

/// The bigint as a pointer-width unsigned integer.
pub fn bigint_usize(value: &JsBigInt) -> (r: Result<usize, IntegerRangeError>)
    ensures
        spec_fits_u64(value@) && value@.words[0] <= usize::MAX
            ==> r == Ok::<usize, IntegerRangeError>(value@.words[0] as usize),
        !(spec_fits_u64(value@) && value@.words[0] <= usize::MAX)
            ==> r == Err::<usize, IntegerRangeError>(IntegerRangeError::PointerUnsigned),
        r matches Ok(v) ==> v == spec_bigint_value(value@),
{
    proof {
        use_type_invariant(value);
    }
    let (negative, bits, lossless) = napi_get_u64(value);
    if negative || !lossless || bits > usize::MAX as u64 {
        return Err(IntegerRangeError::PointerUnsigned);
    }
    proof {
        lemma_single_word(value@);
    }
    Ok(bits as usize)
}

/// The bigint as a pointer-width signed integer.
pub fn bigint_isize(value: &JsBigInt) -> (r: Result<isize, IntegerRangeError>)
    ensures
        spec_fits_i64(value@) && isize::MIN <= spec_get_i64(value@).0 <= isize::MAX
            ==> r == Ok::<isize, IntegerRangeError>(spec_get_i64(value@).0 as isize),
        !(spec_fits_i64(value@) && isize::MIN <= spec_get_i64(value@).0 <= isize::MAX)
            ==> r == Err::<isize, IntegerRangeError>(IntegerRangeError::PointerSigned),
        r matches Ok(v) ==> v == spec_bigint_value(value@),
{
    proof {
        use_type_invariant(value);
    }
    let (bits, lossless) = napi_get_i64(value);
    if !lossless || bits < isize::MIN as i64 || bits > isize::MAX as i64 {
        return Err(IntegerRangeError::PointerSigned);
    }
    proof {
        lemma_single_word(value@);
    }
    Ok(bits as isize)
}


/// The largest integer a JavaScript number holds exactly (`2^53 - 1`).
pub const MAX_SAFE_INTEGER: i64 = 9_007_199_254_740_991;

/// A signed 64-bit value that JavaScript reads back exactly as a number.
pub fn js_safe_i64(value: i64) -> (r: Result<i64, IntegerRangeError>)
    ensures
        -MAX_SAFE_INTEGER <= value <= MAX_SAFE_INTEGER ==> r == Ok::<i64, IntegerRangeError>(value),
        !(-MAX_SAFE_INTEGER <= value <= MAX_SAFE_INTEGER) ==> r == Err::<i64, IntegerRangeError>(IntegerRangeError::SafeInteger),
{
    if value < -MAX_SAFE_INTEGER || value > MAX_SAFE_INTEGER {
        return Err(IntegerRangeError::SafeInteger);
    }
    Ok(value)
}

/// An unsigned 64-bit value read as a signed one, refused above `i64::MAX`.
pub fn u64_as_i64(value: u64) -> (r: Result<i64, IntegerRangeError>)
    ensures
        value <= i64::MAX ==> r == Ok::<i64, IntegerRangeError>(value as i64),
        value > i64::MAX ==> r == Err::<i64, IntegerRangeError>(IntegerRangeError::Signed64),
{
    if value > 0x7fff_ffff_ffff_ffffu64 {
        return Err(IntegerRangeError::Signed64);
    }
    Ok(value as i64)
}

/// The version a process initialized the Windows App SDK for, and a later
/// request for another version.
#[derive(Clone, Copy, Debug, PartialEq, Eq, Structural)]
pub struct WinAppSdkVersionConflict {
    pub initialized_major: u32,
    pub initialized_minor: u32,
    pub requested_major: u32,
    pub requested_minor: u32,
}

/// The Windows App SDK is initialized once per process: a later request
/// succeeds only for the same version.
pub fn ensure_winappsdk_version(initialized_major: u32, initialized_minor: u32, major: u32, minor: u32)
    -> (r: Result<(), WinAppSdkVersionConflict>)
    ensures
        r is Ok <==> (initialized_major == major && initialized_minor == minor),
        r matches Err(c) ==> c == (WinAppSdkVersionConflict {
            initialized_major, initialized_minor, requested_major: major, requested_minor: minor,
        }),
{
    if initialized_major == major && initialized_minor == minor {
        Ok(())
    } else {
        Err(WinAppSdkVersionConflict {
            initialized_major,
            initialized_minor,
            requested_major: major,
            requested_minor: minor,
        })
    }
}

/// Entry points that build COM values from JavaScript numbers.
pub struct DynCom;

impl DynCom {
    /// A signed 64-bit argument.
    pub fn i64(value: &JsBigInt) -> (r: Result<i64, IntegerRangeError>)
        ensures
            r == (if spec_fits_i64(value@) {
                Ok::<i64, IntegerRangeError>(spec_get_i64(value@).0)
            } else {
                Err(IntegerRangeError::Signed64)
            }),
    {
        bigint_i64(value)
    }

    /// An unsigned 64-bit argument.
    pub fn u64(value: &JsBigInt) -> (r: Result<u64, IntegerRangeError>)
        ensures
            r == (if spec_fits_u64(value@) {
                Ok::<u64, IntegerRangeError>(value@.words[0])
            } else {
                Err(IntegerRangeError::Unsigned64)
            }),
    {
        bigint_u64(value)
    }

    /// A pointer-sized signed argument.
    pub fn isize(value: &JsBigInt) -> (r: Result<isize, IntegerRangeError>)
        ensures
            r is Ok <==> spec_fits_i64(value@) && isize::MIN <= spec_get_i64(value@).0 <= isize::MAX,
            r matches Ok(v) ==> v == spec_get_i64(value@).0 && v == spec_bigint_value(value@),
            r matches Err(e) ==> e == IntegerRangeError::PointerSigned,
    {
        bigint_isize(value)
    }

    /// A pointer-sized unsigned argument.
    pub fn usize(value: &JsBigInt) -> (r: Result<usize, IntegerRangeError>)
        ensures
            r is Ok <==> spec_fits_u64(value@) && value@.words[0] <= usize::MAX,
            r matches Ok(v) ==> v == value@.words[0] && v == spec_bigint_value(value@),
            r matches Err(e) ==> e == IntegerRangeError::PointerUnsigned,
    {
        bigint_usize(value)
    }

    /// The length of a projected buffer: a non-negative single word no
    /// larger than `i32::MAX`.
    pub fn buffer_allocation_length(value: &JsBigInt) -> (r: Result<u32, IntegerRangeError>)
        ensures
            spec_fits_u64(value@) && value@.words[0] <= i32::MAX
                ==> r == Ok::<u32, IntegerRangeError>(value@.words[0] as u32),
            !(spec_fits_u64(value@) && value@.words[0] <= i32::MAX)
                ==> r == Err::<u32, IntegerRangeError>(IntegerRangeError::BufferLength),
    {
        proof {
            use_type_invariant(value);
        }
        let (negative, bits, lossless) = napi_get_u64(value);
        if negative || !lossless || bits > 0x7fff_ffffu64 {
            return Err(IntegerRangeError::BufferLength);
        }
        Ok(bits as u32)
    }

    /// The element count of an output array: an unsigned pointer-sized
    /// integer.
    pub fn output_array_count(count: &JsBigInt) -> (r: Result<usize, IntegerRangeError>)
        ensures
            r is Ok <==> spec_fits_u64(count@) && count@.words[0] <= usize::MAX,
            r matches Ok(v) ==> v == count@.words[0],
            r matches Err(e) ==> e == IntegerRangeError::PointerUnsigned,
    {
        bigint_usize(count)
    }
}

/// A bigint that converts to `u64` and back keeps its value, and one built
/// from a `u64` converts back to it.
pub proof fn lemma_u64_roundtrip(value: u64, b: BigIntModel)
    requires
        b.sign_bit == false,
        b.words == seq![value],
    ensures
        spec_fits_u64(b),
        b.words[0] == value,
        spec_bigint_value(b) == value,
{
    lemma_single_word(b);
}

/// A bigint built from an `i64` converts back to the same `i64`.
pub proof fn lemma_i64_roundtrip(value: i64, b: BigIntModel)
    requires
        b.sign_bit == (value < 0),
        b.words == seq![(if value < 0 { -value } else { value as int }) as u64],
    ensures
        spec_fits_i64(b),
        spec_get_i64(b).0 == value,
{
}

} // verus!
