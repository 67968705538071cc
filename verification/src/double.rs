//! Double precision numbers by their bit patterns (IEEE 754, binary64), and the JSON
//! numbers that carry them.
use serde_json::{Number, Value};
use vstd::arithmetic::power2::pow2;
use vstd::prelude::*;

use crate::json::{integer_value, json_of, Json};
use crate::text::{all_digits, decimal, digits_value};

verus! {

broadcast use vstd::string::group_string_axioms;

/// The exponent field of a bit pattern.
pub open spec fn exponent_field(bits: u64) -> nat {
    ((bits / 0x10_0000_0000_0000) % 0x800) as nat
}

/// The fraction field of a bit pattern.
pub open spec fn fraction_field(bits: u64) -> nat {
    (bits % 0x10_0000_0000_0000) as nat
}

/// Whether the sign bit is set.
pub open spec fn negative(bits: u64) -> bool {
    bits >= 0x8000_0000_0000_0000
}

/// Whether the bit pattern stands for a number, not for an infinity or a NaN.
pub open spec fn finite(bits: u64) -> bool {
    exponent_field(bits) != 0x7ff
}

/// The significand: the fraction with the implicit leading bit of a normal number.
pub open spec fn significand(bits: u64) -> nat {
    if exponent_field(bits) == 0 {
        fraction_field(bits)
    } else {
        0x10_0000_0000_0000 + fraction_field(bits)
    }
}

/// How many of the smallest positive doubles make up one.
pub open spec fn unit() -> nat {
    pow2(1074)
}

/// The absolute value of a finite double, counted in smallest positive doubles.
pub open spec fn magnitude(bits: u64) -> nat {
    if exponent_field(bits) == 0 {
        significand(bits)
    } else {
        significand(bits) * pow2((exponent_field(bits) - 1) as nat)
    }
}

/// Whether a double is a whole number.
pub open spec fn whole(bits: u64) -> bool {
    finite(bits) && magnitude(bits) % unit() == 0
}

/// Whether a double lies between zero and `top`, both included.
pub open spec fn within(bits: u64, top: nat) -> bool {
    &&& finite(bits)
    &&& negative(bits) ==> magnitude(bits) == 0
    &&& magnitude(bits) <= top * unit()
}

/// The absolute value of a double without its fractional part.
pub open spec fn truncated(bits: u64) -> nat {
    magnitude(bits) / unit()
}

/// The whole number nearest to the absolute value of a double, halves away from zero.
pub open spec fn rounded(bits: u64) -> nat {
    (2 * magnitude(bits) + unit()) / (2 * unit())
}

/// Whether a double is exactly the whole number `n`, and no negative zero.
pub open spec fn is_integer(bits: u64, n: nat) -> bool {
    finite(bits) && !negative(bits) && magnitude(bits) == n * unit()
}

/// The double that is the whole number `n`.
pub open spec fn whole_bits(n: nat) -> u64 {
    choose|bits: u64| is_integer(bits, n)
}

/// Whether a double holds the whole number `n` exactly.
pub open spec fn held(n: nat) -> bool {
    exists|bits: u64| is_integer(bits, n)
}

/// Whether a double is the whole number `n`, or with `minus` its negative.
pub open spec fn is_signed(bits: u64, minus: bool, n: nat) -> bool {
    finite(bits) && negative(bits) == minus && magnitude(bits) == n * unit()
}

/// The double that is the whole number `n`, or with `minus` its negative.
pub open spec fn signed_bits(minus: bool, n: nat) -> u64 {
    if minus {
        (whole_bits(n) + 0x8000_0000_0000_0000) as u64
    } else {
        whole_bits(n)
    }
}

/// Whether a double is the zero with the sign bit.
pub open spec fn negative_zero(bits: u64) -> bool {
    bits == 0x8000_0000_0000_0000
}

/// Up to here a double holds every whole number exactly.
pub open spec fn exact_top() -> nat {
    0x20_0000_0000_0000
}

fn exponent_of(bits: u64) -> (field: u64)
    ensures
        field == exponent_field(bits),
        field < 0x800,
{
    (bits / 0x10_0000_0000_0000) % 0x800
}

fn significand_of(bits: u64) -> (value: u64)
    ensures
        value == significand(bits),
        value < 0x20_0000_0000_0000,
        exponent_field(bits) != 0 ==> value >= 0x10_0000_0000_0000,
        exponent_field(bits) == 0 ==> value < 0x10_0000_0000_0000,
{
    if exponent_of(bits) == 0 {
        bits % 0x10_0000_0000_0000
    } else {
        0x10_0000_0000_0000 + bits % 0x10_0000_0000_0000
    }
}

/// The power of two with the exponent `k`.
fn power(k: u64) -> (value: u64)
    requires
        k < 64,
    ensures
        value == pow2(k as nat),
        value > 0,
{
    proof {
        vstd::bits::lemma_u64_pow2_no_overflow(k as nat);
        vstd::bits::lemma_u64_shl_is_mul(1, k);
        vstd::arithmetic::power2::lemma_pow2_pos(k as nat);
    }
    1u64 << k
}

/// Below the exponent of one, a double is smaller than one; from there on its magnitude
/// and the unit share the factor that the exponent gives.
proof fn lemma_scale(bits: u64)
    ensures
        unit() > 0,
        exponent_field(bits) < 1022 ==> 2 * magnitude(bits) < unit(),
        exponent_field(bits) < 1023 ==> magnitude(bits) < unit(),
        1 <= exponent_field(bits) <= 1075 ==> {
            let factor = pow2((exponent_field(bits) - 1) as nat);
            let rest = pow2((1075 - exponent_field(bits)) as nat);
            &&& factor > 0
            &&& rest > 0
            &&& magnitude(bits) == significand(bits) * factor
            &&& unit() == rest * factor
        },
        exponent_field(bits) > 1075 ==> {
            let factor = pow2((exponent_field(bits) - 1075) as nat);
            &&& factor >= 2
            &&& magnitude(bits) == significand(bits) * factor * unit()
        },
{
    use_powers();
    let e = exponent_field(bits);
    let s = significand(bits);
    assert(s < 0x20_0000_0000_0000);
    assert(pow2(52) == 0x10_0000_0000_0000 && pow2(53) == 0x20_0000_0000_0000);
    vstd::arithmetic::power2::lemma_pow2_pos(1074);
    if 1 <= e <= 1075 {
        vstd::arithmetic::power2::lemma_pow2_adds((1075 - e) as nat, (e - 1) as nat);
        vstd::arithmetic::power2::lemma_pow2_pos((1075 - e) as nat);
        vstd::arithmetic::power2::lemma_pow2_pos((e - 1) as nat);
    }
    if e > 1075 {
        vstd::arithmetic::power2::lemma_pow2_adds((e - 1075) as nat, 1074);
        vstd::arithmetic::power2::lemma_pow2_unfold((e - 1075) as nat);
        vstd::arithmetic::power2::lemma_pow2_pos((e - 1076) as nat);
        let factor = pow2((e - 1075) as nat);
        assert(s * (factor * unit()) == s * factor * unit()) by (nonlinear_arith);
    }
    if e < 1023 {
        if e == 0 {
            vstd::arithmetic::power2::lemma_pow2_strictly_increases(53, 1074);
        } else {
            let factor = pow2((e - 1) as nat);
            assert(s * factor < pow2(53) * factor) by (nonlinear_arith)
                requires
                    s < pow2(53),
                    factor > 0,
            ;
            vstd::arithmetic::power2::lemma_pow2_adds(53, (e - 1) as nat);
            if e < 1022 {
                vstd::arithmetic::power2::lemma_pow2_unfold((53 + (e - 1) + 1) as nat);
                if e < 1021 {
                    vstd::arithmetic::power2::lemma_pow2_strictly_increases(
                        (53 + (e - 1) + 1) as nat,
                        1074,
                    );
                }
            }
        }
    }
}

proof fn use_powers()
    ensures
        pow2(52) == 0x10_0000_0000_0000,
        pow2(53) == 0x20_0000_0000_0000,
        pow2(8) == 256,
{
    vstd::arithmetic::power2::lemma2_to64();
    vstd::arithmetic::power2::lemma2_to64_rest();
}

/// Whether a double is a whole number.
pub fn is_whole(bits: u64) -> (yes: bool)
    ensures
        yes == whole(bits),
{
    let exponent = exponent_of(bits);
    let value = significand_of(bits);
    proof {
        lemma_scale(bits);
    }
    if exponent == 0x7ff {
        return false;
    }
    if exponent < 1023 {
        proof {
            vstd::arithmetic::div_mod::lemma_small_mod(magnitude(bits), unit());
            if exponent != 0 {
                let factor = pow2((exponent - 1) as nat);
                assert(value * factor > 0) by (nonlinear_arith)
                    requires
                        value > 0,
                        factor > 0,
                ;
            }
        }
        return value == 0;
    }
    if exponent >= 1075 {
        proof {
            let factor = pow2((exponent - 1075) as nat);
            if exponent == 1075 {
                vstd::arithmetic::power2::lemma2_to64();
                vstd::arithmetic::div_mod::lemma_mod_multiples_basic(value as int, unit() as int);
            } else {
                vstd::arithmetic::div_mod::lemma_mod_multiples_basic(
                    value * factor,
                    unit() as int,
                );
            }
        }
        return true;
    }
    let rest = power(1075 - exponent);
    proof {
        let factor = pow2((exponent - 1) as nat);
        vstd::arithmetic::div_mod::lemma_truncate_middle(value as int, factor as int, rest as int);
        lemma_commutes(factor as int, value as int);
        lemma_commutes(factor as int, rest as int);
        let left = (value % rest) as int;
        assert(factor * left == 0 <==> left == 0) by (nonlinear_arith)
            requires
                factor > 0,
        ;
    }
    value % rest == 0
}

proof fn lemma_commutes(a: int, b: int)
    ensures
        a * b == b * a,
{
    assert(a * b == b * a) by (nonlinear_arith);
}

/// Whether a double lies between zero and `top`, both included.
pub fn is_within(bits: u64, top: u8) -> (yes: bool)
    ensures
        yes == within(bits, top as nat),
{
    let exponent = exponent_of(bits);
    let value = significand_of(bits);
    proof {
        lemma_scale(bits);
        lemma_zero(bits);
    }
    if exponent == 0x7ff {
        return false;
    }
    if bits >= 0x8000_0000_0000_0000 {
        return value == 0;
    }
    if exponent < 1023 {
        proof {
            assert(if top >= 1 {
                unit() <= top * unit()
            } else {
                top * unit() == 0
            }) by (nonlinear_arith)
                requires
                    unit() > 0,
            ;
        }
        return top > 0 || value == 0;
    }
    if exponent > 1030 {
        proof {
            lemma_large(bits, top);
        }
        return false;
    }
    let rest = power(1075 - exponent);
    proof {
        use_powers();
        if exponent > 1023 {
            vstd::arithmetic::power2::lemma_pow2_strictly_increases((1075 - exponent) as nat, 52);
        }
        assert(top * rest <= 255 * 0x10_0000_0000_0000) by (nonlinear_arith)
            requires
                top <= 255,
                rest <= 0x10_0000_0000_0000,
        ;
        let factor = pow2((exponent - 1) as nat);
        assert(top * (rest * factor) == (top * rest) * factor) by (nonlinear_arith);
        let bound = top * rest;
        assert(value * factor <= bound * factor <==> value <= bound) by (nonlinear_arith)
            requires
                factor > 0,
        ;
    }
    value <= top as u64 * rest
}

/// The magnitude is zero exactly where the significand is.
proof fn lemma_zero(bits: u64)
    ensures
        magnitude(bits) == 0 <==> significand(bits) == 0,
{
    let e = exponent_field(bits);
    if e != 0 {
        vstd::arithmetic::power2::lemma_pow2_pos((e - 1) as nat);
        let factor = pow2((e - 1) as nat);
        let s = significand(bits);
        assert(s * factor > 0) by (nonlinear_arith)
            requires
                s > 0,
                factor > 0,
        ;
    }
}

/// From the exponent of 256 on, a double exceeds every byte.
proof fn lemma_large(bits: u64, top: u8)
    requires
        exponent_field(bits) > 1030,
    ensures
        magnitude(bits) > top * unit(),
{
    use_powers();
    let e = exponent_field(bits);
    let s = significand(bits);
    let factor = pow2((e - 1) as nat);
    assert(pow2(52) * factor <= s * factor) by (nonlinear_arith)
        requires
            pow2(52) <= s,
    ;
    vstd::arithmetic::power2::lemma_pow2_adds(52, (e - 1) as nat);
    vstd::arithmetic::power2::lemma_pow2_adds(8, 1074);
    if e > 1031 {
        vstd::arithmetic::power2::lemma_pow2_strictly_increases(1082, (52 + (e - 1)) as nat);
    }
    vstd::arithmetic::power2::lemma_pow2_pos(1074);
    assert(top * unit() < 256 * unit()) by (nonlinear_arith)
        requires
            top < 256,
            unit() > 0,
    ;
}

/// The whole part of a double between zero and 255.
pub fn truncate(bits: u64) -> (value: u8)
    requires
        within(bits, 255),
    ensures
        value == truncated(bits),
{
    let exponent = exponent_of(bits);
    let value = significand_of(bits);
    proof {
        lemma_scale(bits);
        if exponent > 1030 {
            lemma_large(bits, 255);
        }
        vstd::arithmetic::div_mod::lemma_multiply_divide_le(
            magnitude(bits) as int,
            unit() as int,
            255,
        );
    }
    if exponent < 1023 {
        proof {
            vstd::arithmetic::div_mod::lemma_basic_div(magnitude(bits) as int, unit() as int);
        }
        return 0;
    }
    let rest = power(1075 - exponent);
    proof {
        let factor = pow2((exponent - 1) as nat);
        vstd::arithmetic::div_mod::lemma_div_multiples_vanish_quotient(
            factor as int,
            value as int,
            rest as int,
        );
        lemma_commutes(factor as int, value as int);
        lemma_commutes(factor as int, rest as int);
    }
    (value / rest) as u8
}

/// The whole number nearest to a double between zero and 100.
pub fn round(bits: u64) -> (value: u8)
    requires
        within(bits, 100),
    ensures
        value == rounded(bits),
        value <= 100,
{
    let exponent = exponent_of(bits);
    let value = significand_of(bits);
    let ghost doubled = 2 * magnitude(bits) + unit();
    proof {
        lemma_scale(bits);
        if exponent > 1030 {
            lemma_large(bits, 100);
        }
        assert(2 * (100 * unit()) + unit() < (2 * unit()) * 101) by (nonlinear_arith)
            requires
                unit() > 0,
        ;
        vstd::arithmetic::div_mod::lemma_multiply_divide_lt(
            doubled as int,
            2 * unit() as int,
            101,
        );
    }
    if exponent < 1022 {
        proof {
            vstd::arithmetic::div_mod::lemma_basic_div(doubled as int, 2 * unit() as int);
        }
        return 0;
    }
    let rest = power(1075 - exponent);
    proof {
        use_powers();
        if exponent > 1022 {
            vstd::arithmetic::power2::lemma_pow2_strictly_increases((1075 - exponent) as nat, 53);
        }
        let factor = pow2((exponent - 1) as nat);
        vstd::arithmetic::div_mod::lemma_div_multiples_vanish_quotient(
            factor as int,
            2 * value + rest,
            2 * rest,
        );
        assert(factor * (2 * value + rest) == 2 * (value * factor) + rest * factor)
            by (nonlinear_arith);
        assert(factor * (2 * rest) == 2 * (rest * factor)) by (nonlinear_arith);
    }
    ((2 * value + rest) / (2 * rest)) as u8
}

/// Two doubles of one sign and one magnitude are the same.
proof fn lemma_same_magnitude(a: u64, b: u64)
    requires
        negative(a) == negative(b),
        magnitude(a) == magnitude(b),
    ensures
        a == b,
{
    lemma_magnitude_grows(a, b);
    lemma_magnitude_grows(b, a);
    let e = exponent_field(a);
    if e != 0 {
        let factor = pow2((e - 1) as nat);
        vstd::arithmetic::power2::lemma_pow2_pos((e - 1) as nat);
        let (s, t) = (significand(a), significand(b));
        assert(s * factor == t * factor ==> s == t) by (nonlinear_arith)
            requires
                factor > 0,
        ;
    }
}

/// A larger exponent makes a larger magnitude.
proof fn lemma_magnitude_grows(a: u64, b: u64)
    ensures
        exponent_field(a) < exponent_field(b) ==> magnitude(a) < magnitude(b),
{
    let (e, f) = (exponent_field(a), exponent_field(b));
    if e < f {
        use_powers();
        let (s, t) = (significand(a), significand(b));
        let factor = pow2((f - 1) as nat);
        vstd::arithmetic::power2::lemma_pow2_pos((f - 1) as nat);
        assert(0x10_0000_0000_0000 * factor <= t * factor) by (nonlinear_arith)
            requires
                0x10_0000_0000_0000 <= t,
        ;
        if e != 0 {
            let less = pow2((e - 1) as nat);
            vstd::arithmetic::power2::lemma_pow2_pos((e - 1) as nat);
            vstd::arithmetic::power2::lemma_pow2_unfold((e - 1 + 1) as nat);
            if e + 1 < f {
                vstd::arithmetic::power2::lemma_pow2_strictly_increases(e, (f - 1) as nat);
            }
            assert(s * less < 0x20_0000_0000_0000 * less) by (nonlinear_arith)
                requires
                    s < 0x20_0000_0000_0000,
                    less > 0,
            ;
        }
    }
}

/// There is one double only that is a given whole number.
pub proof fn lemma_whole_unique(bits: u64, n: nat)
    requires
        is_integer(bits, n),
    ensures
        bits == whole_bits(n),
{
    lemma_same_magnitude(bits, whole_bits(n));
}

/// The largest power of two up to a number.
proof fn lemma_power_below(n: nat) -> (k: nat)
    requires
        n > 0,
    ensures
        pow2(k) <= n < pow2(k + 1),
    decreases n,
{
    vstd::arithmetic::power2::lemma2_to64();
    if n == 1 {
        0
    } else {
        let k = lemma_power_below(n / 2);
        vstd::arithmetic::power2::lemma_pow2_unfold(k + 1);
        vstd::arithmetic::power2::lemma_pow2_unfold(k + 2);
        k + 1
    }
}

/// A double holds every whole number up to `exact_top`.
pub proof fn lemma_whole_bits(n: nat)
    requires
        n <= exact_top(),
    ensures
        is_integer(whole_bits(n), n),
{
    use_powers();
    if n == 0 {
        assert(0 * unit() == 0) by (nonlinear_arith);
        assert(is_integer(0, 0));
    } else {
        let k = lemma_power_below(n);
        if k >= 53 {
            if k > 53 {
                vstd::arithmetic::power2::lemma_pow2_strictly_increases(53, k);
            }
            assert(n == 0x20_0000_0000_0000);
            let bits = 0x4340_0000_0000_0000u64;
            assert(exponent_field(bits) == 1076);
            vstd::arithmetic::power2::lemma_pow2_adds(1, 1074);
            vstd::arithmetic::power2::lemma2_to64();
            assert(significand(bits) == 0x10_0000_0000_0000);
            assert(is_integer(bits, n));
        } else {
            let rest = (52 - k) as nat;
            vstd::arithmetic::power2::lemma_pow2_pos(rest);
            vstd::arithmetic::power2::lemma_pow2_adds(k, rest);
            vstd::arithmetic::power2::lemma_pow2_unfold(k + 1);
            vstd::arithmetic::power2::lemma_pow2_adds(rest, (1022 + k) as nat);
            let (p, q) = (pow2(k), pow2(rest));
            let fraction = (n - p) * q;
            assert(0 <= fraction < p * q && fraction == n * q - p * q) by (nonlinear_arith)
                requires
                    p <= n < 2 * p,
                    q > 0,
                    fraction == (n - p) * q,
            ;
            assert(p * q == 0x10_0000_0000_0000);
            let bits = ((1023 + k) * 0x10_0000_0000_0000 + fraction) as u64;
            assert(exponent_field(bits) == 1023 + k);
            assert(fraction_field(bits) == fraction);
            assert(significand(bits) == n * q);
            let factor = pow2((1022 + k) as nat);
            assert((n * q) * factor == n * (q * factor)) by (nonlinear_arith);
            assert(is_integer(bits, n));
        }
    }
}

/// A whole number is where it is: between zero and itself, without a fractional part.
pub proof fn lemma_whole_value(n: nat)
    requires
        n <= exact_top(),
    ensures
        finite(whole_bits(n)),
        !negative(whole_bits(n)),
        whole(whole_bits(n)),
        truncated(whole_bits(n)) == n,
        rounded(whole_bits(n)) == n,
        forall|top: nat| within(whole_bits(n), top) <==> n <= top,
{
    lemma_whole_bits(n);
    lemma_scale(whole_bits(n));
    let one = unit();
    vstd::arithmetic::div_mod::lemma_div_by_multiple(n as int, one as int);
    vstd::arithmetic::div_mod::lemma_mod_multiples_basic(n as int, one as int);
    assert(2 * (n * one) + one == (2 * one) * n + one) by (nonlinear_arith);
    vstd::arithmetic::div_mod::lemma_div_multiples_vanish_fancy(n as int, one as int, 2 * one as int);
    assert forall|top: nat| within(whole_bits(n), top) <==> n <= top by {
        assert(n * one <= top * one <==> n <= top) by (nonlinear_arith)
            requires
                one > 0,
        ;
    }
}

/// The sign bit changes the sign and nothing else.
proof fn lemma_sign(bits: u64)
    requires
        !negative(bits),
    ensures
        ({
            let minus = (bits + 0x8000_0000_0000_0000) as u64;
            &&& negative(minus)
            &&& finite(minus) == finite(bits)
            &&& magnitude(minus) == magnitude(bits)
        }),
{
    let minus = (bits + 0x8000_0000_0000_0000) as u64;
    assert(minus / 0x10_0000_0000_0000 == bits / 0x10_0000_0000_0000 + 0x800);
    assert(exponent_field(minus) == exponent_field(bits));
    assert(fraction_field(minus) == fraction_field(bits));
}

/// There is one double only that is a given whole number with a sign.
pub proof fn lemma_signed_unique(bits: u64, minus: bool, n: nat)
    requires
        is_signed(bits, minus, n),
    ensures
        held(n),
        bits == signed_bits(minus, n),
{
    if minus {
        let plus = (bits - 0x8000_0000_0000_0000) as u64;
        lemma_sign(plus);
        assert(is_integer(plus, n));
        lemma_whole_unique(plus, n);
    } else {
        assert(is_integer(bits, n));
        lemma_whole_unique(bits, n);
    }
}

/// A whole number with a sign is what it is.
pub proof fn lemma_signed_value(minus: bool, n: nat)
    requires
        held(n),
    ensures
        is_signed(signed_bits(minus, n), minus, n),
{
    assert(is_integer(whole_bits(n), n));
    lemma_sign(whole_bits(n));
}

/// A number in decimal notation is read as itself, alone or before `.0`, and behind a minus
/// sign as its negative.
pub proof fn lemma_signed_spelled(minus: bool, n: nat)
    requires
        held(n),
    ensures
        ({
            let sign = if minus {
                "-"@
            } else {
                ""@
            };
            let (short, long) = (sign + decimal(n), sign + decimal(n) + ".0"@);
            &&& spelled(short) == Some((minus, n))
            &&& spelled(long) == Some((minus, n))
            &&& !minus || n > 0 ==> float_read(short) == Some(signed_bits(minus, n))
            &&& !minus || n > 0 ==> float_read(long) == Some(signed_bits(minus, n))
        }),
{
    reveal_strlit("");
    reveal_strlit("-");
    reveal_strlit(".0");
    crate::text::lemma_decimal(n);
    let digits = decimal(n);
    let cut = digits.len() - 2;
    if cut > 0 && digits.skip(cut) == ".0"@ {
        assert(digits.skip(cut)[0] == digits[cut]);
        assert(false);
    }
    let long = digits + ".0"@;
    assert(long.skip(long.len() - 2) =~= ".0"@);
    assert(long.take(long.len() - 2) =~= digits);
    assert(digits[0] != '-');
    if minus {
        assert(("-"@ + digits).skip(1) =~= digits);
        assert(("-"@ + digits + ".0"@).skip(1) =~= long);
    } else {
        assert(""@ + digits =~= digits);
        assert(""@ + digits + ".0"@ =~= long);
    }
}

/// A number in decimal notation is read as itself, alone or before `.0`.
pub proof fn lemma_spelled(n: nat)
    requires
        n <= exact_top(),
    ensures
        float_read(decimal(n)) == Some(whole_bits(n)),
        float_read(decimal(n) + ".0"@) == Some(whole_bits(n)),
{
    lemma_whole_bits(n);
    lemma_signed_spelled(false, n);
    reveal_strlit("");
    assert(""@ + decimal(n) =~= decimal(n));
}

/// A whole double is read from the text that it is written as: the negative zero as one of
/// the two zeros, every other one as itself.
pub proof fn lemma_whole_read(bits: u64)
    requires
        whole(bits),
    ensures
        float_read(float_text(bits)) is Some,
        same_number(float_read(float_text(bits))->0, bits),
        !negative_zero(bits) ==> float_read(float_text(bits)) == Some(bits),
{
    let n = truncated(bits);
    lemma_scale(bits);
    vstd::arithmetic::div_mod::lemma_fundamental_div_mod(magnitude(bits) as int, unit() as int);
    lemma_commutes(unit() as int, n as int);
    assert(is_signed(bits, negative(bits), n));
    lemma_signed_unique(bits, negative(bits), n);
    if n == 0 {
        assert(0 * unit() == 0) by (nonlinear_arith);
        lemma_zero(bits);
    }
    lemma_signed_spelled(negative(bits), n);
}

/// There are two zeros only.
proof fn lemma_zeros(bits: u64)
    requires
        magnitude(bits) == 0,
    ensures
        bits == 0 || negative_zero(bits),
{
    lemma_zero(bits);
}

/// What a JSON number holds.
pub enum Numeral {
    Integer(int),
    Double(u64),
}

/// The bit pattern of the double nearest to an integer, as `Value::as_f64` gives it.
pub uninterp spec fn integer_as_double(n: int) -> u64;

/// An integer without its sign.
pub open spec fn absolute(n: int) -> nat {
    if n < 0 {
        -n as nat
    } else {
        n as nat
    }
}

/// The bit pattern of the double that a JSON number is read as: an integer that a double
/// holds exactly is read as itself.
pub open spec fn double_bits(numeral: Numeral) -> u64 {
    match numeral {
        Numeral::Integer(n) => if held(absolute(n)) {
            signed_bits(n < 0, absolute(n))
        } else {
            integer_as_double(n)
        },
        Numeral::Double(bits) => bits,
    }
}

/// The double that a text denotes as a float literal, by `str::parse`; every NaN is
/// given by the bit pattern of `canonical`.
pub uninterp spec fn float_literal(text: Seq<char>) -> Option<u64>;

/// The whole number that decimal digits spell, alone or before `.0`, where a double holds
/// it exactly, and whether a minus sign stands before it.
pub open spec fn spelled(text: Seq<char>) -> Option<(bool, nat)> {
    let minus = text.len() > 0 && text[0] == '-';
    let rest = if minus {
        text.skip(1)
    } else {
        text
    };
    let cut = rest.len() - 2;
    let digits = if cut > 0 && rest.skip(cut) == ".0"@ {
        rest.take(cut)
    } else {
        rest
    };
    let n = digits_value(digits);
    if digits.len() > 0 && all_digits(digits) && held(n) {
        Some((minus, n))
    } else {
        None
    }
}

/// Which of the two zeros a zero behind a minus sign denotes.
pub open spec fn zero_read(text: Seq<char>) -> u64 {
    if float_literal(text) == Some(0x8000_0000_0000_0000u64) {
        0x8000_0000_0000_0000
    } else {
        0
    }
}

/// The double that a text denotes as a float literal.
pub open spec fn float_read(text: Seq<char>) -> Option<u64> {
    match spelled(text) {
        Some((minus, n)) => if minus && n == 0 {
            Some(zero_read(text))
        } else {
            Some(signed_bits(minus, n))
        },
        None => float_literal(text),
    }
}

/// How `str::parse` words that a text is no float literal.
pub uninterp spec fn float_error(text: Seq<char>) -> Seq<char>;

/// How `Display` writes a finite double.
pub uninterp spec fn finite_text(bits: u64) -> Seq<char>;

/// Whether a bit pattern stands for no number at all.
pub open spec fn not_a_number(bits: u64) -> bool {
    !finite(bits) && fraction_field(bits) != 0
}

/// The bit pattern itself, or the one pattern that stands for every NaN.
pub open spec fn canonical(bits: u64) -> u64 {
    if not_a_number(bits) {
        0x7ff8_0000_0000_0000
    } else {
        bits
    }
}

/// How `Display` writes a double.
pub open spec fn plain_text(bits: u64) -> Seq<char> {
    if finite(bits) {
        finite_text(bits)
    } else if fraction_field(bits) != 0 {
        "NaN"@
    } else if negative(bits) {
        "-inf"@
    } else {
        "inf"@
    }
}

/// A whole double with one digit behind the point.
pub open spec fn whole_text(bits: u64) -> Seq<char> {
    (if negative(bits) {
        "-"@
    } else {
        ""@
    }) + decimal(truncated(bits)) + ".0"@
}

/// How the schedule service is given a number.
pub open spec fn float_text(bits: u64) -> Seq<char> {
    if whole(bits) {
        whole_text(bits)
    } else {
        plain_text(bits)
    }
}

/// `Value::as_f64`, by its bit pattern: a number is always readable as a finite double, and
/// anything else is not readable as one. An integer that a double holds exactly is read as
/// itself.
#[verifier::external_body]
fn number_bits(value: &Value) -> (found: Option<u64>)
    ensures
        match json_of(*value) {
            Json::Num(Numeral::Integer(n)) => found is Some && (if held(absolute(n)) {
                is_signed(found->0, n < 0, absolute(n))
            } else {
                found->0 == integer_as_double(n)
            }),
            Json::Num(Numeral::Double(kept)) => found == Some(kept),
            _ => found is None,
        },
        found is Some ==> finite(found->0),
{
    value.as_f64().map(|number| number.to_bits())
}

/// The `From` of `Value` on what `Value::as_f64` gives: the same number, held as a double.
#[verifier::external_body]
fn as_double(value: &Value) -> (double: Value)
    requires
        json_of(*value) is Num,
    ensures
        json_of(double) == Json::Num(Numeral::Double(double_bits(json_of(*value)->Num_0))),
{
    Value::from(value.as_f64())
}

/// `str::parse` for a double, with the number that `Number::from_f64` makes of the result:
/// one exactly where the result is finite, and null otherwise. The result is the double
/// closest to what the text spells: decimal digits, alone or before `.0`, denote the integer
/// that they spell where a double holds it exactly, and its negative behind a minus sign.
/// A zero behind a minus sign denotes a zero; which of the two is not said.
#[verifier::external_body]
fn parse_number(text: &str) -> (result: Result<(Value, u64), String>)
    ensures
        match result {
            Ok((value, bits)) => {
                &&& match spelled(text@) {
                    Some((minus, n)) => if minus && n == 0 {
                        magnitude(bits) == 0 && float_literal(text@) == Some(bits)
                    } else {
                        is_signed(bits, minus, n)
                    },
                    None => float_literal(text@) == Some(canonical(bits)),
                }
                &&& json_of(value) == (if finite(bits) {
                    Json::Num(Numeral::Double(bits))
                } else {
                    Json::Null
                })
            },
            Err(message) => {
                &&& spelled(text@) is None
                &&& float_literal(text@) is None
                &&& message@ == float_error(text@)
            },
        },
{
    text.parse().map(
        |number|
            (Number::from_f64(number).map_or(Value::Null, Value::Number), number.to_bits()),
    ).map_err(|error| error.to_string())
}

/// `Display` of what `Value::as_f64` gives: a finite double in words. That the words parse
/// back to the double is not said.
#[verifier::external_body]
fn display(value: &Value) -> (text: String)
    requires
        json_of(*value) is Num,
    ensures
        text@ == finite_text(double_bits(json_of(*value)->Num_0)),
{
    value.as_f64().map(|number| number.to_string()).unwrap_or_default()
}

/// `Display` of what `Value::as_f64` gives, with a precision of one digit. Of a whole double
/// these are its decimal digits and `.0`.
#[verifier::external_body]
fn display_whole(value: &Value) -> (text: String)
    requires
        json_of(*value) is Num,
        whole(double_bits(json_of(*value)->Num_0)),
    ensures
        text@ == whole_text(double_bits(json_of(*value)->Num_0)),
{
    value.as_f64().map(|number| format!("{number:.1}")).unwrap_or_default()
}

/// What stands for a double in a document: a number, or null where JSON has none.
pub open spec fn double_json(bits: u64) -> Json {
    if finite(bits) {
        Json::Num(Numeral::Double(bits))
    } else {
        Json::Null
    }
}

/// A double: the bit pattern, and what stands for it in a document.
#[derive(Debug)]
pub struct Double {
    bits: u64,
    value: Value,
}

impl View for Double {
    type V = u64;

    closed spec fn view(&self) -> u64 {
        self.bits
    }
}

impl Double {
    #[verifier::type_invariant]
    spec fn consistent(self) -> bool {
        json_of(self.value) == double_json(self.bits) && self.bits == canonical(self.bits)
    }

    /// The double that a JSON number is read as.
    pub fn from_value(value: &Value) -> (found: Option<Double>)
        ensures
            match found {
                Some(double) => {
                    &&& json_of(*value) is Num
                    &&& double@ == double_bits(json_of(*value)->Num_0)
                    &&& finite(double@)
                },
                None => !(json_of(*value) is Num),
            },
    {
        match number_bits(value) {
            Some(bits) => {
                proof {
                    if let Json::Num(Numeral::Integer(n)) = json_of(*value) {
                        if held(absolute(n)) {
                            lemma_signed_unique(bits, n < 0, absolute(n));
                        }
                    }
                }
                Some(Double { bits, value: as_double(value) })
            },
            None => None,
        }
    }

    /// The double that is a small whole number.
    pub fn from_integer(n: u8) -> (double: Double)
        ensures
            double@ == whole_bits(n as nat),
    {
        let value = integer_value(n as u64);
        proof {
            lemma_whole_bits(n as nat);
        }
        match Double::from_value(&value) {
            Some(double) => double,
            None => vstd::pervasive::unreached(),
        }
    }

    /// Reads a float literal.
    pub fn parse(text: &str) -> (result: Result<Double, String>)
        ensures
            match result {
                Ok(double) => float_read(text@) == Some(double@),
                Err(message) => float_read(text@) is None && message@ == float_error(text@),
            },
    {
        match parse_number(text) {
            Ok((value, read)) => {
                let exponent = exponent_of(read);
                let bits: u64 = if exponent == 0x7ff && read % 0x10_0000_0000_0000 != 0 {
                    0x7ff8_0000_0000_0000
                } else {
                    read
                };
                proof {
                    if let Some((minus, n)) = spelled(text@) {
                        if minus && n == 0 {
                            lemma_zeros(read);
                        } else {
                            lemma_signed_unique(read, minus, n);
                        }
                    }
                }
                Ok(Double { bits, value })
            },
            Err(message) => Err(message),
        }
    }

    /// The bit pattern.
    pub fn to_bits(&self) -> (bits: u64)
        ensures
            bits == self@,
    {
        self.bits
    }

    /// What stands for the double in a document.
    pub fn to_value(&self) -> (value: Value)
        ensures
            json_of(value) == double_json(self@),
    {
        proof {
            use_type_invariant(self);
        }
        self.value.clone()
    }

    /// The number as `Display` writes it.
    pub fn plain(&self) -> (text: String)
        ensures
            text@ == plain_text(self@),
    {
        proof {
            use_type_invariant(self);
        }
        if exponent_of(self.bits) != 0x7ff {
            display(&self.value)
        } else if self.bits % 0x10_0000_0000_0000 != 0 {
            "NaN".to_string()
        } else if self.bits >= 0x8000_0000_0000_0000 {
            "-inf".to_string()
        } else {
            "inf".to_string()
        }
    }
}

impl Clone for Double {
    fn clone(&self) -> (copy: Self)
        ensures
            copy@ == self@,
    {
        proof {
            use_type_invariant(self);
        }
        Double { bits: self.bits, value: self.value.clone() }
    }
}

/// Whether two doubles are the same number: a NaN is never, and the two zeros are.
pub open spec fn same_number(a: u64, b: u64) -> bool {
    !not_a_number(a) && !not_a_number(b) && (a == b || (a % 0x8000_0000_0000_0000 == 0 && b
        % 0x8000_0000_0000_0000 == 0))
}

impl PartialEq for Double {
    fn eq(&self, other: &Double) -> (equal: bool) {
        let left = exponent_of(self.bits) == 0x7ff && self.bits % 0x10_0000_0000_0000 != 0;
        let right = exponent_of(other.bits) == 0x7ff && other.bits % 0x10_0000_0000_0000 != 0;
        !left && !right && (self.bits == other.bits || (self.bits % 0x8000_0000_0000_0000 == 0
            && other.bits % 0x8000_0000_0000_0000 == 0))
    }
}

impl vstd::std_specs::cmp::PartialEqSpecImpl for Double {
    open spec fn obeys_eq_spec() -> bool {
        true
    }

    open spec fn eq_spec(&self, other: &Double) -> bool {
        same_number(self@, other@)
    }
}

/// A whole number with one digit behind the point, any other number as `Display` writes it.
pub fn format_float(value: &Double) -> (text: String)
    ensures
        text@ == float_text(value@),
{
    proof {
        use_type_invariant(value);
    }
    if is_whole(value.bits) {
        display_whole(&value.value)
    } else {
        value.plain()
    }
}

}
