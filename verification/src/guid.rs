//! GUIDs in their registry text form: groups of eight, four, four, four and
//! twelve hexadecimal digits joined by dashes.
use vstd::prelude::*;
use vstd::arithmetic::power::pow;
use vstd::arithmetic::div_mod::{lemma_div_denominator, lemma_fundamental_div_mod, lemma_mod_bound};
use vstd::arithmetic::power::{lemma_pow_positive, lemma_pow_adds, lemma_pow1};

verus! {

/// The value of a hexadecimal digit, either case.
pub open spec fn spec_hex_value(c: char) -> Option<int> {
    if '0' <= c && c <= '9' {
        Some(c as int - '0' as int)
    } else if 'A' <= c && c <= 'F' {
        Some(c as int - 'A' as int + 10)
    } else if 'a' <= c && c <= 'f' {
        Some(c as int - 'a' as int + 10)
    } else {
        None
    }
}

/// The upper-case hexadecimal digit of a value below 16.
pub open spec fn spec_upper_hex(d: int) -> char {
    if d < 10 { ((d + '0' as int) as u32) as char } else { ((d - 10 + 'A' as int) as u32) as char }
}

/// The positions of the four dashes.
pub open spec fn spec_dash_at(i: int) -> bool {
    i == 8 || i == 13 || i == 18 || i == 23
}

/// Where the `k`-th hexadecimal digit (most significant first) stands.
pub open spec fn spec_digit_position(k: int) -> int {
    k + (if k >= 8 { 1int } else { 0 }) + (if k >= 12 { 1int } else { 0 })
        + (if k >= 16 { 1int } else { 0 }) + (if k >= 20 { 1int } else { 0 })
}

/// A well-formed GUID text: 36 characters, dashes at their four places and
/// hexadecimal digits everywhere else.
pub open spec fn spec_guid_text_ok(s: Seq<char>) -> bool {
    &&& s.len() == 36
    &&& forall|i: int| 0 <= i < 36 ==> if spec_dash_at(i) {
        s[i] == '-'
    } else {
        spec_hex_value(s[i]) is Some
    }
}

/// The number spelled by the first `n` digits of a GUID text.
pub open spec fn spec_digits_value(s: Seq<char>, n: nat) -> int
    decreases n,
{
    if n == 0 {
        0
    } else {
        16 * spec_digits_value(s, (n - 1) as nat)
            + spec_hex_value(s[spec_digit_position(n - 1)])->Some_0
    }
}

/// The GUID a text stands for: its 32 digits read as one 128-bit number
/// (data1, data2, data3 and the eight bytes of data4, in order).
pub open spec fn spec_parse_guid(s: Seq<char>) -> Option<u128> {
    if spec_guid_text_ok(s) { Some(spec_digits_value(s, 32) as u128) } else { None }
}

/// The `k`-th hexadecimal digit of `v`, most significant first.
pub open spec fn spec_guid_digit(v: u128, k: int) -> int {
    (v as int / pow(16, (31 - k) as nat)) % 16
}

/// The text of a GUID: upper-case digits, dashes at their four places.
pub open spec fn spec_guid_text(v: u128) -> Seq<char> {
    Seq::new(36, |i: int| if spec_dash_at(i) {
        '-'
    } else {
        spec_upper_hex(spec_guid_digit(v, i - (if i > 8 { 1int } else { 0 }) - (if i > 13 { 1int } else { 0 })
            - (if i > 18 { 1int } else { 0 }) - (if i > 23 { 1int } else { 0 })))
    })
}

/// Calls `windows_core::GUID::try_from(&str)`: a text of 36 bytes with
/// dashes after the 8th, 12th, 16th and 20th hexadecimal digit (either
/// case) gives the GUID whose `to_u128` is those digits read in order;
/// anything else is refused.
#[verifier::external_body]
fn guid_try_from(text: &str) -> (r: Option<u128>)
    ensures
        r == spec_parse_guid(text@),
{
    windows_core::GUID::try_from(text).ok().map(|guid| guid.to_u128())
}

/// Formats `windows_core::GUID::from_u128(value)` with its `Debug` impl,
/// which writes data1, data2, data3 and the bytes of data4 as zero-padded
/// upper-case hexadecimal, dashes between the groups.
#[verifier::external_body]
fn guid_debug_text(value: u128) -> (r: String)
    ensures
        r@ == spec_guid_text(value),
{
    format!("{:?}", windows_core::GUID::from_u128(value))
}

/// A GUID handed to JavaScript.
#[derive(Clone, Copy, Debug, PartialEq, Eq, Structural)]
pub struct WinGUID {
    value: u128,
}

/// Why a GUID text was refused.
#[derive(Clone, Copy, Debug, PartialEq, Eq, Structural)]
pub enum GuidError {
    InvalidGuid,
    InvalidClsid,
}

impl View for WinGUID {
    type V = u128;

    closed spec fn view(&self) -> u128 {
        self.value
    }
}

impl WinGUID {
    /// The GUID with this 128-bit value.
    pub fn from_u128(value: u128) -> (r: WinGUID)
        ensures
            r@ == value,
    {
        WinGUID { value }
    }

    /// The 128-bit value.
    pub fn to_u128(&self) -> (r: u128)
        ensures
            r == self@,
    {
        self.value
    }

    /// Parses the registry text form.
    pub fn parse(guid_str: String) -> (r: Result<WinGUID, GuidError>)
        ensures
            r is Ok <==> spec_parse_guid(guid_str@) is Some,
            r matches Ok(g) ==> spec_parse_guid(guid_str@) == Some(g@),
            r matches Err(e) ==> e == GuidError::InvalidGuid,
    {
        match guid_try_from(guid_str.as_str()) {
            Some(value) => Ok(WinGUID { value }),
            None => Err(GuidError::InvalidGuid),
        }
    }

    /// The registry text form, upper case.
    pub fn to_string(&self) -> (r: String)
        ensures
            r@ == spec_guid_text(self@),
    {
        guid_debug_text(self.value)
    }
}

/// Parses a class identifier.
pub fn parse_clsid(clsid: &str) -> (r: Result<WinGUID, GuidError>)
    ensures
        r is Ok <==> spec_parse_guid(clsid@) is Some,
        r matches Ok(g) ==> spec_parse_guid(clsid@) == Some(g@),
        r matches Err(e) ==> e == GuidError::InvalidClsid,
{
    match guid_try_from(clsid) {
        Some(value) => Ok(WinGUID { value }),
        None => Err(GuidError::InvalidClsid),
    }
}

proof fn lemma_upper_hex_roundtrip(d: int)
    requires
        0 <= d < 16,
    ensures
        spec_hex_value(spec_upper_hex(d)) == Some(d),
        spec_upper_hex(d) != '-',
{
}

proof fn lemma_digit_position_inverse(k: int)
    requires
        0 <= k < 32,
    ensures
        0 <= spec_digit_position(k) < 36,
        !spec_dash_at(spec_digit_position(k)),
        ({
            let i = spec_digit_position(k);
            i - (if i > 8 { 1int } else { 0 }) - (if i > 13 { 1int } else { 0 })
                - (if i > 18 { 1int } else { 0 }) - (if i > 23 { 1int } else { 0 }) == k
        }),
{
}

proof fn lemma_digits_prefix(v: u128, n: nat)
    requires
        n <= 32,
    ensures
        spec_digits_value(spec_guid_text(v), n) == v as int / pow(16, (32 - n) as nat),
    decreases n,
{
    let s = spec_guid_text(v);
    if n == 0 {
        assert(v as int / pow(16, 32) == 0) by {
            reveal_with_fuel(pow, 33);
            assert(pow(16, 32) == 0x1_0000_0000_0000_0000_0000_0000_0000_0000);
        }
    } else {
        lemma_digits_prefix(v, (n - 1) as nat);
        let k = n - 1;
        lemma_digit_position_inverse(k);
        let d = spec_guid_digit(v, k);
        let p = pow(16, (32 - n) as nat);
        lemma_pow_positive(16, (32 - n) as nat);
        lemma_mod_bound(v as int / p, 16);
        lemma_upper_hex_roundtrip(d);
        assert(s[spec_digit_position(k)] == spec_upper_hex(d));
        assert(pow(16, (32 - k) as nat) == 16 * p) by {
            lemma_pow_adds(16, 1, (32 - n) as nat);
            lemma_pow1(16);
        }
        lemma_div_denominator(v as int, p, 16);
        lemma_fundamental_div_mod(v as int / p, 16);
    }
}

/// The text of a GUID parses back to the same GUID.
pub proof fn lemma_guid_text_roundtrip(v: u128)
    ensures
        spec_parse_guid(spec_guid_text(v)) == Some(v),
{
    let s = spec_guid_text(v);
    assert forall|i: int| 0 <= i < 36 implies (if spec_dash_at(i) {
        s[i] == '-'
    } else {
        spec_hex_value(s[i]) is Some
    }) by {
        if !spec_dash_at(i) {
            let k = i - (if i > 8 { 1int } else { 0 }) - (if i > 13 { 1int } else { 0 })
                - (if i > 18 { 1int } else { 0 }) - (if i > 23 { 1int } else { 0 });
            lemma_pow_positive(16, (31 - k) as nat);
            lemma_mod_bound(v as int / pow(16, (31 - k) as nat), 16);
            lemma_upper_hex_roundtrip(spec_guid_digit(v, k));
        }
    }
    lemma_digits_prefix(v, 32);
    assert(pow(16, 0) == 1) by {
        vstd::arithmetic::power::lemma_pow0(16);
    }
}

} // verus!
