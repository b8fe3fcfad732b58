//! Text building blocks: decimal numerals and vector-lane letters.

use vstd::prelude::*;

verus! {

/// The numeral of a single decimal digit.
pub open spec fn digit(d: u64) -> Seq<char> {
    match d {
        0 => "0"@,
        1 => "1"@,
        2 => "2"@,
        3 => "3"@,
        4 => "4"@,
        5 => "5"@,
        6 => "6"@,
        7 => "7"@,
        8 => "8"@,
        _ => "9"@,
    }
}

/// The decimal numeral of `n`, without leading zeros.
pub open spec fn dec(n: nat) -> Seq<char>
    decreases n,
{
    if n < 10 {
        digit(n as u64)
    } else {
        dec(n / 10) + digit((n % 10) as u64)
    }
}

/// The decimal numeral of a signed number.
pub open spec fn signed_dec(n: int) -> Seq<char> {
    if n < 0 {
        "-"@ + dec((-n) as nat)
    } else {
        dec(n as nat)
    }
}

/// The letter of vector lane `c`: `x`, `y`, `z`, `w` for 0, 1, 2, 3.
pub open spec fn lane(c: u8) -> Seq<char> {
    match c {
        0 => "x"@,
        1 => "y"@,
        2 => "z"@,
        _ => "w"@,
    }
}

fn digit_str(d: u64) -> (r: &'static str)
    requires
        d < 10,
    ensures
        r@ == digit(d),
{
    match d {
        0 => "0",
        1 => "1",
        2 => "2",
        3 => "3",
        4 => "4",
        5 => "5",
        6 => "6",
        7 => "7",
        8 => "8",
        _ => "9",
    }
}

/// Renders `n` in decimal.
pub fn decimal(n: u64) -> (r: String)
    ensures
        r@ == dec(n as nat),
    decreases n,
{
    if n < 10 {
        digit_str(n).to_owned()
    } else {
        decimal(n / 10).concat(digit_str(n % 10))
    }
}

/// Renders `n` in decimal, with a leading minus sign where it is negative.
pub fn signed_decimal(n: i32) -> (r: String)
    ensures
        r@ == signed_dec(n as int),
{
    if n < 0 {
        let magnitude: i64 = -(n as i64);
        "-".to_owned().concat(decimal(magnitude as u64).as_str())
    } else {
        decimal(n as u64)
    }
}

/// The letter of a vector lane.
pub fn lane_str(c: u8) -> (r: &'static str)
    requires
        c < 4,
    ensures
        r@ == lane(c),
{
    match c {
        0 => "x",
        1 => "y",
        2 => "z",
        _ => "w",
    }
}

/// The numeral of a digit is the one character of that digit.
proof fn digit_is_a_character(d: u64)
    requires
        d < 10,
    ensures
        digit(d).len() == 1,
        digit(d)[0] as int == '0' as int + d,
{
    reveal_strlit("0");
    reveal_strlit("1");
    reveal_strlit("2");
    reveal_strlit("3");
    reveal_strlit("4");
    reveal_strlit("5");
    reveal_strlit("6");
    reveal_strlit("7");
    reveal_strlit("8");
    reveal_strlit("9");
}

/// A numeral has at least one character, and all of them are decimal digits.
pub proof fn numerals_are_digits(n: nat)
    ensures
        dec(n).len() >= 1,
        forall|i: int| 0 <= i < dec(n).len() ==> '0' <= #[trigger] dec(n)[i] <= '9',
    decreases n,
{
    if n < 10 {
        digit_is_a_character(n as u64);
    } else {
        digit_is_a_character((n % 10) as u64);
        numerals_are_digits(n / 10);
    }
}

/// Different numbers have different numerals, so names that end in a register
/// number never clash.
pub proof fn numerals_are_unique(a: nat, b: nat)
    requires
        dec(a) == dec(b),
    ensures
        a == b,
    decreases a,
{
    digit_is_a_character((a % 10) as u64);
    digit_is_a_character((b % 10) as u64);
    numerals_are_digits(a / 10);
    numerals_are_digits(b / 10);
    assert(dec(a).last() as int == '0' as int + a % 10);
    assert(dec(b).last() as int == '0' as int + b % 10);
    if a >= 10 && b >= 10 {
        assert(dec(a).drop_last() =~= dec(a / 10));
        assert(dec(b).drop_last() =~= dec(b / 10));
        numerals_are_unique(a / 10, b / 10);
    }
}

/// The views of a list of strings.
pub open spec fn views(v: Seq<String>) -> Seq<Seq<char>> {
    v.map_values(|s: String| s@)
}

// ---------------------------------------------------------------------------
// Starts
// ---------------------------------------------------------------------------

/// Whether `text` starts with `start`.
pub open spec fn starts_with(text: Seq<char>, start: Seq<char>) -> bool {
    start.len() <= text.len() && text.take(start.len() as int) == start
}

/// What starts a text still starts it with more behind.
pub proof fn appending_keeps_the_start(text: Seq<char>, more: Seq<char>, start: Seq<char>)
    requires
        starts_with(text, start),
    ensures
        starts_with(text + more, start),
{
    assert((text + more).take(start.len() as int) =~= text.take(start.len() as int));
}

/// A text starts with itself.
pub proof fn every_text_starts_with_itself(text: Seq<char>)
    ensures
        starts_with(text, text),
{
    assert(text.take(text.len() as int) =~= text);
}

/// The start of a start is a start.
pub proof fn starts_compose(a: Seq<char>, b: Seq<char>, c: Seq<char>)
    requires
        starts_with(b, a),
        starts_with(c, b),
    ensures
        starts_with(c, a),
{
    assert(c.take(a.len() as int) =~= c.take(b.len() as int).take(a.len() as int));
}

} // verus!
