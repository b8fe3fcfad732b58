//! Float literals.
//!
//! Floats travel as IEEE-754 single-precision bit patterns. Their decimal
//! rendering comes from outside, in a [`FloatTexts`] table; what is done with
//! a rendering is decided here.

use crate::dxso::emit::error::{emits, EmitError, EmitFailure, Emitted};
use std::collections::BTreeMap;
use vstd::prelude::*;

verus! {

broadcast use vstd::std_specs::btree::group_btree_axioms;

/// Decimal renderings of floats, by bit pattern.
#[derive(Debug)]
pub struct FloatTexts {
    entries: BTreeMap<u32, String>,
}

impl View for FloatTexts {
    type V = Map<u32, Seq<char>>;

    closed spec fn view(&self) -> Map<u32, Seq<char>> {
        self.entries@.map_values(|s: String| s@)
    }
}

impl FloatTexts {
    /// A table without renderings.
    pub fn new() -> (r: FloatTexts)
        ensures
            r@ == Map::<u32, Seq<char>>::empty(),
    {
        let r = FloatTexts { entries: BTreeMap::new() };
        assert(r@ =~= Map::<u32, Seq<char>>::empty());
        r
    }

    /// Enters `text` as the rendering of the float with pattern `bits`.
    pub fn insert(&mut self, bits: u32, text: String)
        ensures
            final(self)@ == old(self)@.insert(bits, text@),
    {
        self.entries.insert(bits, text);
        assert(self@ =~= old(self)@.insert(bits, text@));
    }

    /// The rendering of the float with pattern `bits`.
    pub fn get(&self, bits: u32) -> (r: Option<&str>)
        ensures
            match r {
                Some(s) => self@.contains_key(bits) && self@[bits] == s@,
                None => !self@.contains_key(bits),
            },
    {
        match self.entries.get(&bits) {
            Some(s) => Some(s.as_str()),
            None => None,
        }
    }
}

/// Whether the sign bit is set.
pub open spec fn is_negative(bits: u32) -> bool {
    bits >= 0x8000_0000
}

/// The pattern without its sign bit.
pub open spec fn magnitude(bits: u32) -> u32 {
    if is_negative(bits) {
        (bits - 0x8000_0000) as u32
    } else {
        bits
    }
}

/// Whether `text` already reads as a float literal.
pub open spec fn has_float_mark(text: Seq<char>) -> bool {
    text.contains('.') || text.contains('e') || text.contains('E')
}

/// The Metal literal of the float with pattern `bits`.
///
/// The special values have names of their own; a finite value is its decimal
/// rendering, with a decimal point added where it has neither a point nor an
/// exponent.
pub open spec fn float_literal(bits: u32, texts: Map<u32, Seq<char>>) -> Emitted {
    if magnitude(bits) > 0x7F80_0000 {
        Ok("NAN"@)
    } else if magnitude(bits) == 0x7F80_0000 {
        Ok(
            if is_negative(bits) {
                "-INFINITY"@
            } else {
                "INFINITY"@
            },
        )
    } else if !texts.contains_key(bits) {
        Err(EmitFailure::MissingFloatText(bits))
    } else if has_float_mark(texts[bits]) {
        Ok(texts[bits])
    } else {
        Ok(texts[bits] + ".0"@)
    }
}

/// `bits` clamped to the range from minus one to one; NaN stays NaN.
pub open spec fn clamped_to_unit(bits: u32) -> u32 {
    if 0x3F80_0000 < magnitude(bits) <= 0x7F80_0000 {
        if is_negative(bits) {
            0xBF80_0000
        } else {
            0x3F80_0000
        }
    } else {
        bits
    }
}

/// The pattern of two to the power `e`.
pub open spec fn power_of_two(e: i8) -> u32 {
    if e >= -126 {
        ((e + 127) * 0x80_0000) as u32
    } else if e == -127 {
        0x0040_0000
    } else {
        0x0020_0000
    }
}

/// Clamps a float to the range from minus one to one.
pub fn clamp_to_unit(bits: u32) -> (r: u32)
    ensures
        r == clamped_to_unit(bits),
{
    let m: u32 = if bits >= 0x8000_0000 { bits - 0x8000_0000 } else { bits };
    if 0x3F80_0000 < m && m <= 0x7F80_0000 {
        if bits >= 0x8000_0000 {
            0xBF80_0000
        } else {
            0x3F80_0000
        }
    } else {
        bits
    }
}

/// The pattern of two to the power `e`.
pub fn power_of_two_bits(e: i8) -> (r: u32)
    ensures
        r == power_of_two(e),
{
    if e >= -126 {
        let biased: i32 = e as i32 + 127;
        biased as u32 * 0x80_0000
    } else if e == -127 {
        0x0040_0000
    } else {
        0x0020_0000
    }
}

fn is_float_text(text: &str) -> (r: bool)
    ensures
        r == has_float_mark(text@),
{
    let n: usize = text.unicode_len();
    let mut i: usize = 0;
    while i < n
        invariant
            i <= n,
            n == text@.len(),
            forall|k: int| 0 <= k < i ==> text@[k] != '.' && text@[k] != 'e' && text@[k] != 'E',
        decreases n - i,
    {
        let c = text.get_char(i);
        if c == '.' || c == 'e' || c == 'E' {
            assert(text@[i as int] == c);
            return true;
        }
        i = i + 1;
    }
    false
}

/// Renders the float with pattern `bits` as a Metal literal.
pub fn fmt_float(bits: u32, texts: &FloatTexts) -> (r: Result<String, EmitError>)
    ensures
        emits(r, float_literal(bits, texts@)),
{
    let negative: bool = bits >= 0x8000_0000;
    let m: u32 = if negative { bits - 0x8000_0000 } else { bits };
    if m > 0x7F80_0000 {
        return Ok("NAN".to_owned());
    }
    if m == 0x7F80_0000 {
        return Ok(
            if negative {
                "-INFINITY".to_owned()
            } else {
                "INFINITY".to_owned()
            },
        );
    }
    match texts.get(bits) {
        Some(text) => if is_float_text(text) {
            Ok(text.to_owned())
        } else {
            Ok(text.to_owned().concat(".0"))
        },
        None => Err(EmitError::MissingFloatText(bits)),
    }
}

/// Every literal of a finite float carries a decimal point or an exponent, so
/// that it reads as a float and not as an integer.
pub proof fn finite_literals_read_as_floats(bits: u32, texts: Map<u32, Seq<char>>)
    requires
        magnitude(bits) < 0x7F80_0000,
        texts.contains_key(bits),
    ensures
        float_literal(bits, texts) matches Ok(t) && has_float_mark(t),
{
    if !has_float_mark(texts[bits]) {
        reveal_strlit(".0");
        let t = texts[bits] + ".0"@;
        assert(t[texts[bits].len() as int] == '.');
    }
}

/// Clamping keeps a float that is in range, and what it gives is in range.
pub proof fn clamping_is_idempotent(bits: u32)
    ensures
        clamped_to_unit(clamped_to_unit(bits)) == clamped_to_unit(bits),
        magnitude(bits) <= 0x3F80_0000 ==> clamped_to_unit(bits) == bits,
        magnitude(bits) <= 0x7F80_0000 ==> magnitude(clamped_to_unit(bits)) <= 0x3F80_0000,
        is_negative(clamped_to_unit(bits)) == is_negative(bits),
{
}

} // verus!
