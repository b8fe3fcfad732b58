//! What the bit patterns of floats stand for.

use crate::dxso::emit::floats::{clamped_to_unit, is_negative, magnitude, power_of_two};
use crate::dxso::emit::metal::{greater, lesser, whole};
use vstd::prelude::*;

verus! {

/// Two to the power `e`.
pub open spec fn two_to(e: int) -> real
    decreases
            if e < 0 {
                -e
            } else {
                e
            },
{
    if e == 0 {
        whole(1)
    } else if e > 0 {
        whole(2) * two_to(e - 1)
    } else {
        two_to(e + 1) / whole(2)
    }
}

/// The number that a single-precision pattern without a sign stands for: a
/// fraction of 23 bits, scaled by an exponent of eight. Patterns with a zero
/// exponent lack the leading one.
pub open spec fn magnitude_value(m: int) -> real {
    let exponent = m / 0x80_0000;
    let fraction = m % 0x80_0000;
    if exponent == 0 {
        whole(fraction) * two_to(-149)
    } else {
        whole(0x80_0000 + fraction) * two_to(exponent - 150)
    }
}

/// The number that a single-precision pattern stands for.
pub open spec fn float_value(bits: u32) -> real {
    let v = magnitude_value(magnitude(bits) as int);
    if is_negative(bits) {
        -v
    } else {
        v
    }
}

proof fn powers_double(e: int)
    ensures
        two_to(e + 1) == whole(2) * two_to(e),
        two_to(e + 1) == two_to(e) + two_to(e),
{
    let t = two_to(e + 1);
    let x = two_to(e);
    assert(whole(2) * (t / whole(2)) == t) by (nonlinear_arith);
    assert(whole(2) * x == x + x) by (nonlinear_arith);
}

proof fn powers_multiply(e: int, n: nat)
    ensures
        two_to(e + n) == two_to(n as int) * two_to(e),
    decreases n,
{
    if n > 0 {
        powers_multiply(e, (n - 1) as nat);
        powers_double(e + n - 1);
        powers_double(n - 1);
        let (a, b) = (two_to(n - 1), two_to(e));
        assert(whole(2) * (a * b) == (whole(2) * a) * b) by (nonlinear_arith);
    } else {
        let b = two_to(e);
        assert(whole(1) * b == b) by (nonlinear_arith);
    }
}

proof fn powers_are_positive(e: int)
    ensures
        two_to(e) > whole(0),
    decreases
            if e < 0 {
                -e
            } else {
                e
            },
{
    if e > 0 {
        powers_are_positive(e - 1);
        powers_double(e - 1);
    } else if e < 0 {
        powers_are_positive(e + 1);
        powers_double(e);
    }
}

proof fn powers_grow(a: int, b: int)
    requires
        a <= b,
    ensures
        two_to(a) <= two_to(b),
    decreases b - a,
{
    if a < b {
        powers_grow(a, b - 1);
        powers_are_positive(b - 1);
        powers_double(b - 1);
    }
}

proof fn fraction_powers()
    ensures
        two_to(21) == whole(0x20_0000),
        two_to(22) == whole(0x40_0000),
        two_to(23) == whole(0x80_0000),
        two_to(24) == whole(0x100_0000),
{
    reveal_with_fuel(two_to, 2);
    powers_double(0);
    assert(two_to(1) == whole(2));
    powers_double(1);
    assert(two_to(2) == whole(4));
    powers_double(2);
    assert(two_to(3) == whole(8));
    powers_double(3);
    assert(two_to(4) == whole(16));
    powers_double(4);
    assert(two_to(5) == whole(32));
    powers_double(5);
    assert(two_to(6) == whole(64));
    powers_double(6);
    assert(two_to(7) == whole(128));
    powers_double(7);
    assert(two_to(8) == whole(256));
    powers_double(8);
    assert(two_to(9) == whole(512));
    powers_double(9);
    assert(two_to(10) == whole(1024));
    powers_double(10);
    assert(two_to(11) == whole(2048));
    powers_double(11);
    assert(two_to(12) == whole(4096));
    powers_double(12);
    assert(two_to(13) == whole(8192));
    powers_double(13);
    assert(two_to(14) == whole(16384));
    powers_double(14);
    assert(two_to(15) == whole(32768));
    powers_double(15);
    assert(two_to(16) == whole(65536));
    powers_double(16);
    assert(two_to(17) == whole(131072));
    powers_double(17);
    assert(two_to(18) == whole(262144));
    powers_double(18);
    assert(two_to(19) == whole(524288));
    powers_double(19);
    assert(two_to(20) == whole(1048576));
    powers_double(20);
    assert(two_to(21) == whole(2097152));
    powers_double(21);
    assert(two_to(22) == whole(4194304));
    powers_double(22);
    assert(two_to(23) == whole(8388608));
    powers_double(23);
    assert(two_to(24) == whole(16777216));
}

/// The pattern of a power of two stands for that power.
pub proof fn patterns_of_powers_stand_for_them(e: i8)
    ensures
        float_value(power_of_two(e)) == two_to(e as int),
{
    fraction_powers();
    if e >= -126 {
        let m = (e + 127) * 0x80_0000;
        assert(m / 0x80_0000 == e + 127 && m % 0x80_0000 == 0) by (nonlinear_arith)
            requires
                m == (e + 127) * 0x80_0000,
        ;
        powers_multiply(e - 23, 23);
    } else if e == -127 {
        powers_multiply(-149, 22);
    } else {
        powers_multiply(-149, 21);
    }
}

proof fn one_divides_the_magnitudes(m: int)
    requires
        0 <= m,
    ensures
        m <= 0x3F80_0000 ==> whole(0) <= magnitude_value(m) <= whole(1),
        m >= 0x3F80_0000 ==> magnitude_value(m) >= whole(1),
        magnitude_value(0x3F80_0000) == whole(1),
{
    fraction_powers();
    powers_multiply(-23, 23);
    let k = m / 0x80_0000;
    let f = m % 0x80_0000;
    if k == 0 {
        let p = two_to(-149);
        powers_multiply(-149, 23);
        powers_are_positive(-149);
        powers_grow(-126, 0);
        assert(whole(0) <= whole(f) * p <= whole(0x80_0000) * p) by (nonlinear_arith)
            requires
                0 <= f < 0x80_0000,
                p > whole(0),
        ;
    } else {
        let p = two_to(k - 150);
        powers_are_positive(k - 150);
        powers_multiply(k - 150, 23);
        powers_multiply(k - 150, 24);
        let g = 0x80_0000 + f;
        assert(whole(0) <= whole(0x80_0000) * p <= whole(g) * p <= whole(0x100_0000) * p)
            by (nonlinear_arith)
            requires
                0x80_0000 <= g < 0x100_0000,
                p > whole(0),
        ;
        if k < 127 {
            powers_grow(k - 126, 0);
        } else {
            powers_grow(0, k - 127);
        }
    }
}

/// Clamping a pattern clamps the number that it stands for to the range from
/// minus one to one.
pub proof fn clamping_clamps_the_number(bits: u32)
    requires
        magnitude(bits) <= 0x7F80_0000,
    ensures
        float_value(clamped_to_unit(bits)) == lesser(
            greater(float_value(bits), whole(-1)),
            whole(1),
        ),
{
    one_divides_the_magnitudes(magnitude(bits) as int);
}

} // verus!
