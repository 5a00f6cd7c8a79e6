//! Field elements of the network's prime field, held as 32 big-endian bytes.

use vstd::prelude::*;
use crate::text::left_pad;
use crate::text::left_pad_with_zeros;
use crate::text::starts_with;

verus! {


/// The prime of the network's field: 2^251 + 17 * 2^192 + 1.
pub open spec fn field_prime() -> nat {
    10633823966279327296825105735305134080 * (340282366920938463463374607431768211455 + 1) + 1
}

/// Number denoted by a big-endian byte sequence.
pub open spec fn be_value(b: Seq<u8>) -> nat
    decreases b.len(),
{
    if b.len() == 0 {
        0
    } else {
        be_value(b.drop_last()) * 256 + b.last() as nat
    }
}

/// Value of one hexadecimal digit (either case), if `c` is one.
pub open spec fn hex_digit_value(c: char) -> Option<nat> {
    if '0' <= c && c <= '9' {
        Some((c as nat - '0' as nat) as nat)
    } else if 'a' <= c && c <= 'f' {
        Some((c as nat - 'a' as nat + 10) as nat)
    } else if 'A' <= c && c <= 'F' {
        Some((c as nat - 'A' as nat + 10) as nat)
    } else {
        None
    }
}

pub open spec fn is_hex_digits(s: Seq<char>) -> bool {
    forall|i: int| 0 <= i < s.len() ==> (#[trigger] hex_digit_value(s[i])).is_some()
}

/// Number denoted by a sequence of hexadecimal digits, most significant first.
pub open spec fn hex_value(s: Seq<char>) -> nat
    decreases s.len(),
{
    if s.len() == 0 {
        0
    } else {
        hex_value(s.drop_last()) * 16 + hex_digit_value(s.last()).unwrap_or(0)
    }
}

/// At most 64 hexadecimal digits.
pub open spec fn hex_fits(t: Seq<char>) -> bool {
    t.len() <= 64 && is_hex_digits(t)
}

pub open spec fn is_dec_digits(s: Seq<char>) -> bool {
    forall|i: int| 0 <= i < s.len() ==> '0' <= #[trigger] s[i] && s[i] <= '9'
}

/// Number denoted by a sequence of decimal digits, most significant first.
pub open spec fn dec_value(s: Seq<char>) -> nat
    decreases s.len(),
{
    if s.len() == 0 {
        0
    } else {
        (dec_value(s.drop_last()) * 10 + (s.last() as nat - '0' as nat)) as nat
    }
}

/// `s` with every leading "0x" removed, as `str::trim_start_matches("0x")` does.
pub open spec fn trim_hex_prefix(s: Seq<char>) -> Seq<char>
    decreases s.len(),
{
    if s.len() >= 2 && s[0] == '0' && s[1] == 'x' {
        trim_hex_prefix(s.skip(2))
    } else {
        s
    }
}

/// `s` denotes a field element in hexadecimal.
pub open spec fn hex_parses(s: Seq<char>) -> bool {
    hex_fits(trim_hex_prefix(s)) && hex_value(trim_hex_prefix(s)) < field_prime()
}

/// `s` denotes a field element in decimal.
pub open spec fn dec_parses(s: Seq<char>) -> bool {
    is_dec_digits(s) && dec_value(s) < field_prime()
}

/// Lower-case hexadecimal digit for `d < 16`.
pub open spec fn lower_hex_digit(d: nat) -> char {
    if d < 10 {
        ('0' as nat + d) as char
    } else {
        ('a' as nat + d - 10) as char
    }
}

/// Lower-case hexadecimal digits of `n`, without leading zeros ("0" for zero).
pub open spec fn hex_digits(n: nat) -> Seq<char>
    decreases n,
{
    if n < 16 {
        seq![lower_hex_digit(n)]
    } else {
        hex_digits(n / 16).push(lower_hex_digit(n % 16))
    }
}

/// Hexadecimal digits are ASCII characters, so their text has one byte per digit.
pub proof fn lemma_hex_digits_ascii(n: nat)
    ensures
        vstd::utf8::is_ascii_chars(hex_digits(n)),
    decreases n,
{
    if n >= 16 {
        lemma_hex_digits_ascii(n / 16);
        assert(hex_digits(n) == hex_digits(n / 16).push(lower_hex_digit(n % 16)));
    }
}

/// Why a text is not a field element.
#[derive(Debug, Clone, Copy, PartialEq, Eq, Structural)]
pub enum FeltParseError {
    /// A character that is not a digit of the radix.
    InvalidCharacter,
    /// The number does not fit, or is not below the field's prime.
    OutOfRange,
}

/// A field element, as the 32 bytes of its big-endian representation.
#[derive(Debug, Clone, Copy, PartialEq, Eq)]
pub struct Felt {
    pub bytes: [u8; 32],
}

impl Felt {
    /// The number this element stands for.
    pub open spec fn value(self) -> nat {
        be_value(self.bytes@)
    }

    /// Reduced modulo the field's prime.
    pub open spec fn wf(self) -> bool {
        self.value() < field_prime()
    }

    /// Big-endian bytes of the element.
    pub fn to_bytes_be(&self) -> (r: [u8; 32])
        ensures
            be_value(r@) == self.value(),
    {
        self.bytes
    }

    /// The element whose big-endian bytes are `bytes`, if that number is below the prime.
    pub fn from_bytes_be(bytes: [u8; 32]) -> (r: Option<Felt>)
        ensures
            r matches Some(f) <==> be_value(bytes@) < field_prime(),
            r matches Some(f) ==> f.value() == be_value(bytes@) && f.wf(),
    {
        match element_from_bytes(&bytes) {
            Some(f) => Some(f),
            None => None,
        }
    }

    /// The element zero.
    pub fn zero() -> (r: Felt)
        ensures
            r.value() == 0,
            r.wf(),
    {
        felt_from_u64(0)
    }

    /// The element `n`.
    pub fn from_u64(n: u64) -> (r: Felt)
        ensures
            r.value() == n as nat,
            r.wf(),
    {
        felt_from_u64(n)
    }

    /// The element `n`.
    pub fn from_u128(n: u128) -> (r: Felt)
        ensures
            r.value() == n as nat,
            r.wf(),
    {
        felt_from_u128(n)
    }

    /// Parses hexadecimal digits, with or without leading "0x", of at most 64 digits.
    pub fn from_hex_be(s: &str) -> (r: Result<Felt, FeltParseError>)
        ensures
            trim_hex_prefix(s@).len() > 64 ==> r matches Err(FeltParseError::OutOfRange),
            !is_hex_digits(trim_hex_prefix(s@)) ==> r.is_err(),
            hex_fits(trim_hex_prefix(s@)) ==> (r matches Ok(f) <==> hex_value(trim_hex_prefix(s@))
                < field_prime()),
            hex_fits(trim_hex_prefix(s@)) ==> (r matches Ok(f) ==> f.value() == hex_value(
                trim_hex_prefix(s@),
            ) && f.wf()),
            hex_fits(trim_hex_prefix(s@)) ==> (r matches Err(e) ==> e
                == FeltParseError::OutOfRange),
    {
        parse_hex_be(s)
    }

    /// Parses decimal digits.
    pub fn from_dec_str(s: &str) -> (r: Result<Felt, FeltParseError>)
        ensures
            !is_dec_digits(s@) ==> r.is_err(),
            is_dec_digits(s@) ==> (r matches Ok(f) <==> dec_value(s@) < field_prime()),
            is_dec_digits(s@) ==> (r matches Ok(f) ==> f.value() == dec_value(s@) && f.wf()),
            is_dec_digits(s@) ==> (r matches Err(e) ==> e == FeltParseError::OutOfRange),
    {
        parse_dec(s)
    }

    /// Parses a number written in hexadecimal after "0x", or else in decimal.
    pub fn parse(s: &str) -> (r: Result<Felt, FeltParseError>)
        ensures
            seq!['0', 'x'].is_prefix_of(s@) ==> (r is Ok <==> hex_parses(s@)),
            seq!['0', 'x'].is_prefix_of(s@) ==> (r matches Ok(f) ==> f.value() == hex_value(
                trim_hex_prefix(s@),
            ) && f.wf()),
            !seq!['0', 'x'].is_prefix_of(s@) ==> (r is Ok <==> dec_parses(s@)),
            !seq!['0', 'x'].is_prefix_of(s@) ==> (r matches Ok(f) ==> f.value() == dec_value(s@)
                && f.wf()),
    {
        let prefixed = starts_with(s, "0x");
        proof {
            reveal_strlit("0x");
        }
        if prefixed {
            Felt::from_hex_be(s)
        } else {
            Felt::from_dec_str(s)
        }
    }

    /// Lower-case hexadecimal digits of the value, without leading zeros.
    pub fn to_hex(&self) -> (r: String)
        requires
            self.wf(),
        ensures
            r@ == hex_digits(self.value()),
    {
        lower_hex(self)
    }

    /// The 64 hexadecimal digits of the value, left-padded with zeros.
    pub fn padded_hex(&self) -> (r: String)
        requires
            self.wf(),
        ensures
            r@ == left_pad(hex_digits(self.value()), 64),
    {
        let digits = self.to_hex();
        let text = digits.as_str();
        proof {
            lemma_hex_digits_ascii(self.value());
            vstd::string::is_ascii_spec_bytes(text);
        }
        left_pad_with_zeros(text, 64)
    }

    /// The canonical fixed-width rendering: "0x" followed by 64 hexadecimal digits.
    pub fn to_fixed_hex(&self) -> (r: String)
        requires
            self.wf(),
        ensures
            r@ == seq!['0', 'x'] + left_pad(hex_digits(self.value()), 64),
    {
        let padded = self.padded_hex();
        let r = String::from_str("0x").concat(padded.as_str());
        proof {
            reveal_strlit("0x");
        }
        r
    }
}

/// Relies on `FieldElement::from_bytes_be`: it accepts exactly the byte arrays whose
/// big-endian value is below the prime, and `to_bytes_be` gives those bytes back.
#[verifier::external_body]
fn element_from_bytes(bytes: &[u8; 32]) -> (r: Option<Felt>)
    ensures
        r matches Some(f) <==> be_value(bytes@) < field_prime(),
        r matches Some(f) ==> f.bytes@ == bytes@,
{
    starknet::core::types::FieldElement::from_bytes_be(bytes).ok().map(|e| Felt { bytes: e.to_bytes_be() })
}

/// Relies on `From<u64> for FieldElement`: the element with that value.
#[verifier::external_body]
fn felt_from_u64(n: u64) -> (r: Felt)
    ensures
        r.value() == n as nat,
        r.wf(),
{
    Felt { bytes: starknet::core::types::FieldElement::from(n).to_bytes_be() }
}

/// Relies on `From<u128> for FieldElement`: the element with that value.
#[verifier::external_body]
fn felt_from_u128(n: u128) -> (r: Felt)
    ensures
        r.value() == n as nat,
        r.wf(),
{
    Felt { bytes: starknet::core::types::FieldElement::from(n).to_bytes_be() }
}

/// Relies on `FieldElement::from_hex_be`: it strips every leading "0x", refuses more
/// than 64 digits as out of range, refuses a non-hex character, and refuses a value
/// not below the prime as out of range.
#[verifier::external_body]
fn parse_hex_be(s: &str) -> (r: Result<Felt, FeltParseError>)
    ensures
        trim_hex_prefix(s@).len() > 64 ==> r matches Err(FeltParseError::OutOfRange),
        !is_hex_digits(trim_hex_prefix(s@)) ==> r.is_err(),
        hex_fits(trim_hex_prefix(s@)) ==> (r matches Ok(f) <==> hex_value(trim_hex_prefix(s@))
            < field_prime()),
        hex_fits(trim_hex_prefix(s@)) ==> (r matches Ok(f) ==> f.value() == hex_value(
            trim_hex_prefix(s@),
        ) && f.wf()),
        hex_fits(trim_hex_prefix(s@)) ==> (r matches Err(e) ==> e
            == FeltParseError::OutOfRange),
{
    match starknet::core::types::FieldElement::from_hex_be(s) {
        Ok(e) => Ok(Felt { bytes: e.to_bytes_be() }),
        Err(starknet::core::types::FromStrError::InvalidCharacter) => Err(FeltParseError::InvalidCharacter),
        Err(starknet::core::types::FromStrError::OutOfRange) => Err(FeltParseError::OutOfRange),
    }
}

/// Relies on `FieldElement::from_dec_str`: it refuses a non-digit character, and a
/// value not below the prime as out of range; an empty text is zero.
#[verifier::external_body]
fn parse_dec(s: &str) -> (r: Result<Felt, FeltParseError>)
    ensures
        !is_dec_digits(s@) ==> r.is_err(),
        is_dec_digits(s@) ==> (r matches Ok(f) <==> dec_value(s@) < field_prime()),
        is_dec_digits(s@) ==> (r matches Ok(f) ==> f.value() == dec_value(s@) && f.wf()),
        is_dec_digits(s@) ==> (r matches Err(e) ==> e == FeltParseError::OutOfRange),
{
    match starknet::core::types::FieldElement::from_dec_str(s) {
        Ok(e) => Ok(Felt { bytes: e.to_bytes_be() }),
        Err(starknet::core::types::FromStrError::InvalidCharacter) => Err(FeltParseError::InvalidCharacter),
        Err(starknet::core::types::FromStrError::OutOfRange) => Err(FeltParseError::OutOfRange),
    }
}

/// Relies on `LowerHex for FieldElement`: without width it prints the value's
/// lower-case digits with leading zeros dropped, and "0" for zero.
#[verifier::external_body]
fn lower_hex(f: &Felt) -> (r: String)
    requires
        f.wf(),
    ensures
        r@ == hex_digits(f.value()),
{
    format!("{:x}", starknet::core::types::FieldElement::from_bytes_be(&f.bytes).unwrap())
}

} // verus!
