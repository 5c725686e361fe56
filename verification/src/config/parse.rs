//! How the words of a configuration file are read as values.

use crate::text::str_eq;
use vstd::prelude::*;

verus! {

/// Whether a word switches an option on.
pub open spec fn spec_bool_from_str(s: Seq<char>) -> bool {
    s == "enabled"@ || s == "true"@ || s == "1"@
}

/// Reads a switch: `enabled`, `true` and `1` switch on, every other word
/// switches off.
pub fn bool_from_str(s: &str) -> (r: bool)
    ensures
        r == spec_bool_from_str(s@),
{
    str_eq(s, "enabled") || str_eq(s, "true") || str_eq(s, "1")
}

/// A word that is no hexadecimal value.
#[derive(Clone, Copy, Debug, PartialEq, Eq, Structural)]
pub enum HexaError {
    /// The word is neither `0` nor `0x` followed by a hexadecimal number that
    /// fits.
    Invalid,
}

/// The value of a character as a digit: `0` to `9` stand for 0 to 9, and
/// the letters `a` to `z`, in either case, for 10 to 35.
pub open spec fn spec_radix_digit(c: char) -> Option<nat> {
    if '0' <= c && c <= '9' {
        Some((c as u32 - '0' as u32) as nat)
    } else if 'a' <= c && c <= 'z' {
        Some((c as u32 - 'a' as u32 + 10) as nat)
    } else if 'A' <= c && c <= 'Z' {
        Some((c as u32 - 'A' as u32 + 10) as nat)
    } else {
        None
    }
}

/// Whether every character of a word is a digit of a radix.
pub open spec fn spec_radix_digits(s: Seq<char>, radix: u32) -> bool {
    forall|i: int|
        0 <= i < s.len() ==> spec_radix_digit(#[trigger] s[i]).is_some() && spec_radix_digit(
            s[i],
        ).unwrap() < radix
}

/// The value of a word of digits in a radix.
pub open spec fn spec_radix_value(s: Seq<char>, radix: u32) -> nat
    decreases s.len(),
{
    if s.len() == 0 {
        0
    } else {
        spec_radix_value(s.drop_last(), radix) * radix as nat + (match spec_radix_digit(s.last()) {
            Some(v) => v,
            None => 0,
        })
    }
}

/// The number that a word stands for in a radix: after a `+`, where the
/// word starts with one, there is at least one character, every character is
/// a digit of the radix, and the value fits; `None` for any other word.
pub open spec fn spec_from_str_radix_u32(s: Seq<char>, radix: u32) -> Option<u32> {
    let digits = if s.len() > 0 && s[0] == '+' {
        s.subrange(1, s.len() as int)
    } else {
        s
    };
    if digits.len() > 0 && spec_radix_digits(digits, radix) && spec_radix_value(digits, radix)
        <= u32::MAX {
        Some(spec_radix_value(digits, radix) as u32)
    } else {
        None
    }
}

/// Reads a number in a radix from 2 to 36.
///
/// This calls `<u32 as num_traits::Num>::from_str_radix`, which hands the
/// word to `u32::from_str_radix` of the standard library. That function is
/// documented to take an optional `+` and then digits of the radix, letters
/// in either case, to refuse an empty word, any other character and a value
/// that does not fit, and to panic for a radix outside 2 to 36. The contract
/// says that.
#[verifier::external_body]
fn from_str_radix_u32(s: &str, radix: u32) -> (r: Option<u32>)
    requires
        2 <= radix <= 36,
    ensures
        r == spec_from_str_radix_u32(s@, radix),
{
    <u32 as num_traits::Num>::from_str_radix(s, radix).ok()
}

/// Whether a word starts with `0x`.
pub open spec fn spec_has_hexa_prefix(s: Seq<char>) -> bool {
    s.len() >= 2 && s[0] == '0' && s[1] == 'x'
}

/// The value of a word, given what reading the part after its `0x` as a
/// hexadecimal number gave: that number where the word starts with `0x`,
/// zero for the word `0`, and no value for any other word.
pub open spec fn spec_hexa_value(s: Seq<char>, digits: Option<u32>) -> Result<u32, HexaError> {
    if spec_has_hexa_prefix(s) {
        match digits {
            Some(v) => Ok(v),
            None => Err(HexaError::Invalid),
        }
    } else if s == "0"@ {
        Ok(0u32)
    } else {
        Err(HexaError::Invalid)
    }
}

/// The value of a word, given what reading the part after its `0x` as a
/// hexadecimal number gave.
pub fn hexa_value(s: &str, digits: Option<u32>) -> (r: Result<u32, HexaError>)
    ensures
        r == spec_hexa_value(s@, digits),
{
    let n = s.unicode_len();
    if n >= 2 && s.get_char(0) == '0' && s.get_char(1) == 'x' {
        match digits {
            Some(v) => Ok(v),
            None => Err(HexaError::Invalid),
        }
    } else if str_eq(s, "0") {
        Ok(0)
    } else {
        Err(HexaError::Invalid)
    }
}

/// The value that a word stands for: `0x` followed by a hexadecimal number
/// stands for that number, `0` for zero, and any other word for nothing.
pub open spec fn spec_hexa(s: Seq<char>) -> Result<u32, HexaError> {
    spec_hexa_value(
        s,
        if spec_has_hexa_prefix(s) {
            spec_from_str_radix_u32(s.subrange(2, s.len() as int), 16)
        } else {
            None
        },
    )
}

/// Reads a hexadecimal value: `0x` followed by a hexadecimal number, or
/// `0`.
pub fn hexa_u32(s: &str) -> (r: Result<u32, HexaError>)
    ensures
        r == spec_hexa(s@),
{
    let n = s.unicode_len();
    if n >= 2 && s.get_char(0) == '0' && s.get_char(1) == 'x' {
        let digits = from_str_radix_u32(s.substring_char(2, n), 16);
        hexa_value(s, digits)
    } else {
        hexa_value(s, None)
    }
}

/// Reads a hexadecimal value of at most 16 bits.
pub fn hexa_u16(s: &str) -> (r: Result<u16, HexaError>)
    ensures
        r == (match spec_hexa(s@) {
            Ok(v) => if v <= 0xFFFF {
                Ok(v as u16)
            } else {
                Err(HexaError::Invalid)
            },
            Err(e) => Err(e),
        }),
{
    match hexa_u32(s) {
        Ok(v) => {
            if v <= 0xFFFF {
                Ok(v as u16)
            } else {
                Err(HexaError::Invalid)
            }
        },
        Err(e) => Err(e),
    }
}

/// Reads a list of hexadecimal values; one word that is none makes the
/// whole list invalid.
pub fn hexa_seq(words: &Vec<String>) -> (r: Result<Vec<u32>, HexaError>)
    ensures
        match r {
            Ok(values) => values@.len() == words@.len() && forall|i: int|
                0 <= i < words@.len() ==> spec_hexa(#[trigger] words@[i]@) == Ok::<u32, HexaError>(
                    values@[i],
                ),
            Err(e) => e == HexaError::Invalid && exists|i: int|
                0 <= i < words@.len() && spec_hexa(#[trigger] words@[i]@).is_err(),
        },
{
    let mut out: Vec<u32> = Vec::new();
    let mut i: usize = 0;
    while i < words.len()
        invariant
            i <= words@.len(),
            out@.len() == i,
            forall|j: int|
                0 <= j < i ==> spec_hexa(#[trigger] words@[j]@) == Ok::<u32, HexaError>(out@[j]),
        decreases words.len() - i,
    {
        match hexa_u32(words[i].as_str()) {
            Ok(v) => {
                out.push(v);
            },
            Err(e) => {
                assert(spec_hexa(words@[i as int]@).is_err());
                return Err(e);
            },
        }
        i = i + 1;
    }
    Ok(out)
}

} // verus!
