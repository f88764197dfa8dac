//! Character classes and digit values shared by the token scanners.

use vstd::prelude::*;
use vstd::std_specs::iter::IteratorSpec;

verus! {

/// Whitespace that separates tokens without ending a line.
#[verifier::allow_in_spec]
pub fn is_space(c: char) -> bool
    returns
        (c == ' ' || c == '\r' || c == '\t'),
{
    c == ' ' || c == '\r' || c == '\t'
}

/// The value of `c` as a digit in base `radix` (2, 10 or 16), if it is one.
pub open spec fn digit_of_spec(c: char, radix: u32) -> Option<u32> {
    let u = c as u32;
    if 48 <= u <= 57 && u - 48 < radix {
        Some((u - 48) as u32)
    } else if 97 <= u <= 102 && radix == 16 {
        Some((u - 87) as u32)
    } else if 65 <= u <= 70 && radix == 16 {
        Some((u - 55) as u32)
    } else {
        None
    }
}

/// The value of `c` as a digit in base `radix`, if it is one.
pub fn digit_of(c: char, radix: u32) -> (r: Option<u32>)
    ensures
        r == digit_of_spec(c, radix),
{
    let u = c as u32;
    if 48 <= u && u <= 57 && u - 48 < radix {
        Some(u - 48)
    } else if 97 <= u && u <= 102 && radix == 16 {
        Some(u - 87)
    } else if 65 <= u && u <= 70 && radix == 16 {
        Some(u - 55)
    } else {
        None
    }
}

/// Whether `c` is an ASCII decimal digit.
#[verifier::allow_in_spec]
pub fn is_ascii_digit(c: char) -> bool
    returns
        (48 <= c as u32 <= 57),
{
    let u = c as u32;
    48 <= u && u <= 57
}

/// Whether `c` is an ASCII letter.
#[verifier::allow_in_spec]
pub fn is_ascii_alpha(c: char) -> bool
    returns
        (65 <= c as u32 <= 90 || 97 <= c as u32 <= 122),
{
    let u = c as u32;
    (65 <= u && u <= 90) || (97 <= u && u <= 122)
}

/// Whether `c` may continue an identifier: an ASCII letter, digit, or `_`.
#[verifier::allow_in_spec]
pub fn is_ident_char(c: char) -> bool
    returns
        (65 <= c as u32 <= 90 || 97 <= c as u32 <= 122 || 48 <= c as u32 <= 57 || c == '_'),
{
    let u = c as u32;
    (65 <= u && u <= 90) || (97 <= u && u <= 122) || (48 <= u && u <= 57) || c == '_'
}

/// `c` lower-cased, for ASCII letters; anything else unchanged.
pub open spec fn lower_spec(c: char) -> char {
    if 65 <= c as u32 <= 90 {
        ((c as u32 + 32) as u8) as char
    } else {
        c
    }
}

/// Lower-cases one ASCII letter; anything else passes through.
pub fn lower(c: char) -> (r: char)
    ensures
        r == lower_spec(c),
{
    let u = c as u32;
    if 65 <= u && u <= 90 {
        ((u + 32) as u8) as char
    } else {
        c
    }
}

/// The characters of `s`, in order.
pub fn str_to_chars(s: &str) -> (r: Vec<char>)
    ensures
        r@ == s@,
{
    broadcast use vstd::string::next_postcondition;
    broadcast use vstd::string::axiom_spec_iter;

    let mut it = s.chars();
    let mut acc: Vec<char> = Vec::new();
    loop
        invariant
            it.obeys_prophetic_iter_laws(),
            acc@ + it.remaining() == s@,
            it.decrease() is Some,
        decreases it.decrease()->0,
    {
        match it.next() {
            Some(c) => acc.push(c),
            None => {
                proof {
                    assert(acc@ =~= s@);
                }
                return acc;
            },
        }
    }
}

} // verus!
