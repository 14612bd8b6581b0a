//! Double precision worked out in integers: how a quotient is rounded, and how
//! such a number is written.

use crate::text::{decimal, decimal_string, padded, padded_string};
use vstd::prelude::*;
use vstd::string::StringExecFns;

verus! {

/// A double of at least one is a whole number of units, so many to the one. The
/// same holds in a finer unit of every double of at least this many units.
pub const DOUBLE_ONE: u128 = 0x10_0000_0000_0000;

/// The integer nearest to `a / b`; the even one where two are equally near.
pub open spec fn nearest(a: nat, b: nat) -> nat
    recommends
        b > 0,
{
    let q = a / b;
    let r = a % b;
    if 2 * r < b || (2 * r == b && q % 2 == 0) {
        q
    } else {
        q + 1
    }
}

/// Spacing of doubles around `x` times the fixed-point unit.
pub open spec fn spacing(x: nat) -> nat
    decreases x,
{
    if x < 2 * DOUBLE_ONE {
        1
    } else {
        2 * spacing(x / 2)
    }
}

/// The double nearest to `num / den` of the fixed-point unit, for a quotient
/// of at least one.
pub open spec fn as_double(num: nat, den: nat) -> nat {
    let unit = spacing(num / den);
    unit * nearest(num, den * unit)
}

/// Divides to the nearest integer.
pub fn nearest_integer(a: u128, b: u128) -> (n: u128)
    requires
        0 < b <= 0x4000_0000_0000_0000_0000_0000_0000_0000,
        a < 0x8000_0000_0000_0000_0000_0000_0000_0000,
    ensures
        n == nearest(a as nat, b as nat),
        n <= a / b + 1,
{
    let q: u128 = a / b;
    let r: u128 = a % b;
    if 2 * r < b || (2 * r == b && q % 2 == 0) {
        q
    } else {
        proof {
            assert(a / b <= a) by (nonlinear_arith)
                requires
                    b > 0,
            ;
        }
        q + 1
    }
}

fn double_spacing(x: u128) -> (u: u128)
    ensures
        u == spacing(x as nat),
        1 <= u,
        x >= DOUBLE_ONE ==> u * DOUBLE_ONE <= x < 2 * u * DOUBLE_ONE,
        x < DOUBLE_ONE ==> u == 1,
    decreases x,
{
    if x < 2 * DOUBLE_ONE {
        1
    } else {
        let half: u128 = double_spacing(x / 2);
        proof {
            assert(half * 0x10_0000_0000_0000 <= x / 2);
            assert(half <= x / 2);
        }
        half * 2
    }
}

/// Rounds a quotient to a double, in fixed point.
pub fn round_to_double(num: u128, den: u128) -> (v: u128)
    requires
        1 <= den <= 1000,
        num < 0x40_0000_0000_0000_0000_0000_0000_0000,
    ensures
        v == as_double(num as nat, den as nat),
        v <= 2 * (num / den) + 2,
{
    let floor: u128 = num / den;
    proof {
        assert(num as int / den as int <= num) by (nonlinear_arith)
            requires
                den >= 1,
                num >= 0,
        ;
    }
    let unit: u128 = double_spacing(floor);
    proof {
        assert(unit <= floor || unit == 1) by {
            if floor >= DOUBLE_ONE {
                assert(unit * 0x10_0000_0000_0000 <= floor);
            }
        }
        assert(den * unit <= 1000 * 0x40_0000_0000_0000_0000_0000_0000_0000) by (nonlinear_arith)
            requires
                1 <= den <= 1000,
                1 <= unit <= 0x40_0000_0000_0000_0000_0000_0000_0000,
        ;
        assert(den * unit >= 1) by (nonlinear_arith)
            requires
                1 <= den,
                1 <= unit,
        ;
        assert(den * unit <= num + 1000) by (nonlinear_arith)
            requires
                1 <= den <= 1000,
                unit <= num / den || unit == 1,
                num >= 0,
        ;
    }
    let n: u128 = nearest_integer(num, den * unit);
    proof {
        let d = (den * unit) as int;
        let q = num as int / d;
        assert(unit * (q + 1) <= 2 * (num as int / den as int) + 2 && unit * q <= num as int / den as int)
            by {
            assert(q * unit <= num as int / den as int) by (nonlinear_arith)
                requires
                    q == num as int / d,
                    d == den * unit,
                    den >= 1,
                    unit >= 1,
                    num >= 0,
            ;
            assert(unit * q == q * unit) by (nonlinear_arith);
            assert(unit * (q + 1) == unit * q + unit) by (nonlinear_arith);
            assert(unit <= num as int / den as int + 1);
        }
        assert(unit * n <= unit * (q + 1)) by (nonlinear_arith)
            requires
                unit >= 1,
                n <= q + 1,
                n >= 0,
        ;
    }
    unit * n
}

/// Units to the second that hold every double of a thousandth and more.
pub const FINE_ONE: u128 = 0x4000_0000_0000_0000;

/// Milliseconds as a double number of seconds, in fine units: the whole seconds,
/// and the rest of them as a fraction, each rounded, and so their sum.
pub open spec fn seconds_of(ms: nat) -> nat {
    as_double(
        as_double(ms / 1000 * FINE_ONE as nat, 1) + as_double(ms % 1000 * FINE_ONE as nat, 1000),
        1,
    )
}

/// Milliseconds in seconds, worked out in double precision and shown to two
/// decimals; the even last digit where two are equally near.
pub open spec fn hundredths_text(ms: nat) -> Seq<char> {
    let hundredths = nearest(100 * seconds_of(ms), FINE_ONE as nat);
    decimal(hundredths / 100) + "."@ + padded(hundredths % 100, 2)
}

/// Writes a duration in seconds.
pub fn seconds_text(ms: u64) -> (text: String)
    ensures
        text@ == hundredths_text(ms as nat),
{
    let whole: u128 = round_to_double((ms / 1000) as u128 * FINE_ONE, 1);
    let part: u128 = round_to_double((ms % 1000) as u128 * FINE_ONE, 1000);
    let seconds: u128 = round_to_double(whole + part, 1);
    let hundredths: u128 = nearest_integer(100 * seconds, FINE_ONE);
    let mut text = decimal_string((hundredths / 100) as u64);
    text.append(".");
    text.append(padded_string((hundredths % 100) as u64, 2).as_str());
    text
}

/// Nothing is nearer than half the divisor's worth, and a whole quotient is exact.
pub proof fn nearest_is_within_half(a: nat, b: nat)
    requires
        b > 0,
    ensures
        -(b as int) <= 2 * (b * nearest(a, b) - a) <= b,
        a % b == 0 ==> nearest(a, b) * b == a,
{
    vstd::arithmetic::div_mod::lemma_fundamental_div_mod(a as int, b as int);
    let q = a / b;
    assert(b * (q + 1) == b * q + b) by (nonlinear_arith);
    assert(q * b == b * q) by (nonlinear_arith);
}

} // verus!
