//! What holds of double precision numbers.
use vstd::arithmetic::power2::pow2;
use vstd::prelude::*;

use crate::double::{
    canonical, finite, float_literal, float_read, float_text, is_signed, magnitude, not_a_number,
    plain_text, rounded, same_number, signed_bits, truncated, unit, whole, whole_bits, within,
};
use crate::text::{decimal, digits_value};

verus! {

broadcast use vstd::string::group_string_axioms;

/// What a bit pattern stands for: with an exponent, its fraction and the leading bit, so many
/// times the power that the exponent gives; without one, its fraction alone. The sign does not
/// change the size, and one is two to the power of 1074 of the smallest doubles.
pub proof fn law_magnitude(sign: bool, exponent: nat, fraction: nat)
    requires
        exponent < 2048,
        fraction < 0x10_0000_0000_0000,
    ensures
        ({
            let bits = ((if sign {
                0x8000_0000_0000_0000int
            } else {
                0
            }) + exponent * 0x10_0000_0000_0000 + fraction) as u64;
            &&& finite(bits) <==> exponent != 2047
            &&& crate::double::negative(bits) == sign
            &&& exponent == 0 ==> magnitude(bits) == fraction
            &&& exponent > 0 ==> magnitude(bits) == (0x10_0000_0000_0000 + fraction) * pow2(
                (exponent - 1) as nat,
            )
        }),
        unit() == pow2(1074),
{
    let bits = ((if sign {
        0x8000_0000_0000_0000int
    } else {
        0
    }) + exponent * 0x10_0000_0000_0000 + fraction) as u64;
    assert(bits / 0x10_0000_0000_0000 == exponent + (if sign {
        0x800int
    } else {
        0
    }));
    assert(crate::double::exponent_field(bits) == exponent);
    assert(crate::double::fraction_field(bits) == fraction);
}

/// A double is whole where its size is a number of ones; without its fractional part it is the
/// largest whole number up to its size, and rounded it is the nearest one, halves upwards. It
/// lies between zero and a number where it is no larger, and not below zero.
pub proof fn law_whole_parts(bits: u64, top: nat)
    ensures
        whole(bits) <==> finite(bits) && exists|n: nat| magnitude(bits) == #[trigger] (n * unit()),
        truncated(bits) * unit() <= magnitude(bits) < (truncated(bits) + 1) * unit(),
        2 * rounded(bits) * unit() <= 2 * magnitude(bits) + unit() < 2 * (rounded(bits) + 1)
            * unit(),
        within(bits, top) <==> finite(bits) && (bits < 0x8000_0000_0000_0000 || magnitude(bits)
            == 0) && magnitude(bits) <= top * unit(),
{
    let (size, one) = (magnitude(bits) as int, unit() as int);
    vstd::arithmetic::power2::lemma_pow2_pos(1074);
    vstd::arithmetic::div_mod::lemma_fundamental_div_mod(size, one);
    let n = truncated(bits) as int;
    assert(one * n == n * one) by (nonlinear_arith);
    assert((n + 1) * one == n * one + one) by (nonlinear_arith);
    let m = rounded(bits) as int;
    vstd::arithmetic::div_mod::lemma_fundamental_div_mod(2 * size + one, 2 * one);
    assert((2 * one) * m == 2 * m * one) by (nonlinear_arith);
    assert((2 * one) * m + 2 * one == 2 * (m + 1) * one) by (nonlinear_arith);
    if finite(bits) && size % one == 0 {
        assert(magnitude(bits) == truncated(bits) * unit());
    }
    if exists|k: nat| magnitude(bits) == #[trigger] (k * unit()) {
        let k = choose|k: nat| magnitude(bits) == #[trigger] (k * unit());
        vstd::arithmetic::div_mod::lemma_mod_multiples_basic(k as int, one);
    }
}

/// The double that is a whole number, up to two to the power of 53: with its size, and with a
/// sign or without. There is no other one.
pub proof fn law_whole_numbers(n: nat, minus: bool, bits: u64)
    requires
        n <= 0x20_0000_0000_0000,
    ensures
        is_signed(signed_bits(minus, n), minus, n),
        signed_bits(false, n) == whole_bits(n),
        is_signed(bits, minus, n) ==> bits == signed_bits(minus, n),
        is_signed(bits, minus, n) <==> finite(bits) && (bits >= 0x8000_0000_0000_0000) == minus
            && magnitude(bits) == n * unit(),
{
    crate::double::lemma_whole_bits(n);
    crate::double::lemma_signed_value(minus, n);
    if is_signed(bits, minus, n) {
        crate::double::lemma_signed_unique(bits, minus, n);
    }
}

/// Whole numbers are read from their digits, alone or before a point and a zero, with a minus
/// sign or without. Every other literal is read as `str::parse` reads it.
pub proof fn law_numbers_read(n: nat, text: Seq<char>)
    requires
        n <= 0x20_0000_0000_0000,
    ensures
        float_read(decimal(n)) == Some(signed_bits(false, n)),
        float_read(decimal(n) + ".0"@) == Some(signed_bits(false, n)),
        n > 0 ==> float_read("-"@ + decimal(n)) == Some(signed_bits(true, n)),
        n > 0 ==> float_read("-"@ + decimal(n) + ".0"@) == Some(signed_bits(true, n)),
        (exists|i: int|
            0 <= i < text.len() && #[trigger] text[i] != '.' && text[i] != '-' && !(48
                <= text[i] as int <= 57)) ==> float_read(text) == float_literal(text),
{
    crate::double::lemma_spelled(n);
    crate::double::lemma_whole_bits(n);
    crate::double::lemma_signed_spelled(true, n);
    reveal_strlit(".0");
    if exists|i: int|
        0 <= i < text.len() && #[trigger] text[i] != '.' && text[i] != '-' && !(48 <= text[i] as int
            <= 57) {
        let at = choose|i: int|
            0 <= i < text.len() && #[trigger] text[i] != '.' && text[i] != '-' && !(48
                <= text[i] as int <= 57);
        let minus = text.len() > 0 && text[0] == '-';
        let rest = if minus {
            text.skip(1)
        } else {
            text
        };
        let from = if minus {
            at - 1
        } else {
            at
        };
        assert(rest[from] == text[at]);
        let cut = rest.len() - 2;
        if cut > 0 && rest.skip(cut) == ".0"@ {
            if from >= cut {
                assert(rest.skip(cut)[from - cut] == rest[from]);
            } else {
                assert(rest.take(cut)[from] == rest[from]);
            }
            if crate::text::all_digits(rest.take(cut)) && from < cut {
                assert(crate::text::is_digit(rest.take(cut)[from]));
            }
        } else if crate::text::all_digits(rest) {
            assert(crate::text::is_digit(rest[from]));
        }
    }
}

/// How a number is written: a whole one with its sign, its digits, and a point and a zero;
/// any other as `Display` writes it. What is no number is written as a word.
pub proof fn law_numbers_written(bits: u64)
    ensures
        whole(bits) && bits < 0x8000_0000_0000_0000 ==> float_text(bits) == decimal(truncated(bits))
            + ".0"@,
        whole(bits) && bits >= 0x8000_0000_0000_0000 ==> float_text(bits) == "-"@ + decimal(
            truncated(bits),
        ) + ".0"@,
        !whole(bits) ==> float_text(bits) == plain_text(bits),
        finite(bits) ==> plain_text(bits) == crate::double::finite_text(bits),
        bits == 0x7ff0_0000_0000_0000 ==> plain_text(bits) == "inf"@,
        bits == 0xfff0_0000_0000_0000 ==> plain_text(bits) == "-inf"@,
        !finite(bits) && bits != 0x7ff0_0000_0000_0000 && bits != 0xfff0_0000_0000_0000
            ==> plain_text(bits) == "NaN"@,
{
    reveal_strlit("");
    assert(""@ + decimal(truncated(bits)) =~= decimal(truncated(bits)));
}

/// Two doubles are the same number where they are the same double, or both are zero; what is no
/// number is the same as nothing, and there is one pattern for it.
pub proof fn law_same_numbers(a: u64, b: u64)
    ensures
        same_number(a, b) <==> !not_a_number(a) && !not_a_number(b) && (a == b || ((a == 0 || a
            == 0x8000_0000_0000_0000) && (b == 0 || b == 0x8000_0000_0000_0000))),
        not_a_number(a) <==> !finite(a) && a != 0x7ff0_0000_0000_0000 && a
            != 0xfff0_0000_0000_0000,
        not_a_number(a) ==> canonical(a) == 0x7ff8_0000_0000_0000,
        !not_a_number(a) ==> canonical(a) == a,
{
}

/// The longest length of time: the most seconds that a 64-bit number holds, and all the
/// nanoseconds below one more.
pub proof fn law_longest()
    ensures
        crate::time::longest() == 18_446_744_073_709_551_615_999_999_999,
        crate::time::NANOS_PER_SECOND == 1_000_000_000,
{
}

/// Whether a text is made of a minus sign or none, of digits, and of a point and a zero or
/// nothing.
pub open spec fn spells(text: Seq<char>, minus: bool, digits: Seq<char>) -> bool {
    &&& digits.len() > 0
    &&& forall|i: int| 0 <= i < digits.len() ==> 48 <= #[trigger] digits[i] as int <= 57
    &&& text == (if minus {
        seq!['-']
    } else {
        Seq::empty()
    }) + digits || text == (if minus {
        seq!['-']
    } else {
        Seq::empty()
    }) + digits + seq!['.', '0']
}

/// Digits are read as what they spell, with zeros before them or without, where a double holds
/// it: as its negative behind a minus sign, and behind one a zero as a zero.
pub proof fn law_digits_read(text: Seq<char>, minus: bool, digits: Seq<char>)
    requires
        spells(text, minus, digits),
        digits_value(digits) <= 0x20_0000_0000_0000,
    ensures
        !minus || digits_value(digits) > 0 ==> float_read(text) == Some(
            signed_bits(minus, digits_value(digits)),
        ),
        minus && digits_value(digits) == 0 ==> float_read(text) == Some(0u64) || float_read(text)
            == Some(0x8000_0000_0000_0000u64),
{
    let n = digits_value(digits);
    crate::double::lemma_whole_bits(n);
    reveal_strlit(".0");
    assert(".0"@ =~= seq!['.', '0']);
    assert forall|i: int| 0 <= i < digits.len() implies crate::text::is_digit(
        #[trigger] digits[i],
    ) by {}
    assert(crate::text::all_digits(digits));
    assert(48 <= digits[0] as int <= 57);
    let sign = if minus {
        seq!['-']
    } else {
        Seq::empty()
    };
    let long = digits + seq!['.', '0'];
    assert(long.skip(long.len() - 2) =~= ".0"@);
    assert(long.take(long.len() - 2) =~= digits);
    let cut = digits.len() - 2;
    if cut > 0 && digits.skip(cut) == ".0"@ {
        assert(digits.skip(cut)[0] == digits[cut]);
    }
    if minus {
        assert((sign + digits).skip(1) =~= digits);
        assert((sign + digits + seq!['.', '0']).skip(1) =~= long);
    } else {
        assert(sign + digits =~= digits);
        assert(sign + digits + seq!['.', '0'] =~= long);
    }
}

/// Every other text is read as `str::parse` reads it.
pub proof fn law_others_read(text: Seq<char>)
    requires
        forall|minus: bool, digits: Seq<char>| !spells(text, minus, digits),
    ensures
        float_read(text) == float_literal(text),
{
    reveal_strlit(".0");
    assert(".0"@ =~= seq!['.', '0']);
    if crate::double::spelled(text) is Some {
        let minus = text.len() > 0 && text[0] == '-';
        let rest = if minus {
            text.skip(1)
        } else {
            text
        };
        let sign = if minus {
            seq!['-']
        } else {
            Seq::empty()
        };
        assert(text =~= sign + rest);
        let cut = rest.len() - 2;
        let digits = if cut > 0 && rest.skip(cut) == ".0"@ {
            rest.take(cut)
        } else {
            rest
        };
        if cut > 0 && rest.skip(cut) == ".0"@ {
            assert(rest =~= digits + rest.skip(cut));
            assert(text =~= sign + digits + seq!['.', '0']);
        }
        assert forall|i: int| 0 <= i < digits.len() implies 48 <= #[trigger] digits[i] as int
            <= 57 by {
            assert(crate::text::is_digit(digits[i]));
        }
        assert(spells(text, minus, digits));
    }
}

}
