//! What holds of texts and of numbers in them.
use vstd::prelude::*;

use crate::text::{
    all_digits, ascending, before, decimal, digit, digits_value, drop_back, drop_ends, is_digit,
    lemma_decimal, lemma_drop_back, lemma_drop_ends, occurs, replaced, trimmed, two_digits,
    unsigned_value, white_space,
};

verus! {

broadcast use vstd::string::group_string_axioms;

/// A number in decimal notation is made of digits that spell it, without a zero before them:
/// the digits of its tens, and then that of its ones.
pub proof fn law_decimal(n: nat)
    ensures
        decimal(n).len() > 0,
        forall|i: int| 0 <= i < decimal(n).len() ==> 48 <= #[trigger] decimal(n)[i] as int <= 57,
        decimal(n)[0] == '0' ==> n == 0,
        decimal(n).last() as int == 48 + n % 10,
        n < 10 ==> decimal(n).len() == 1,
        n >= 10 ==> decimal(n).drop_last() == decimal(n / 10),
        digits_value(decimal(n)) == n,
    decreases n,
{
    lemma_decimal(n);
    assert forall|i: int| 0 <= i < decimal(n).len() implies 48 <= #[trigger] decimal(n)[i] as int
        <= 57 by {
        assert(is_digit(decimal(n)[i]));
    }
    if n >= 10 {
        law_decimal(n / 10);
        assert(decimal(n).drop_last() =~= decimal(n / 10));
        assert(decimal(n)[0] == decimal(n / 10)[0]);
    }
}

/// What digits spell: ten times what those before the last spell, and the last.
pub proof fn law_digits(text: Seq<char>, c: char)
    requires
        48 <= c as int <= 57,
    ensures
        digits_value(Seq::empty()) == 0,
        digits_value(text.push(c)) == 10 * digits_value(text) + (c as int - 48),
        all_digits(text) <==> forall|i: int|
            0 <= i < text.len() ==> 48 <= #[trigger] text[i] as int <= 57,
{
    assert(text.push(c).drop_last() =~= text);
    if all_digits(text) {
        assert forall|i: int| 0 <= i < text.len() implies 48 <= #[trigger] text[i] as int <= 57 by {
            assert(is_digit(text[i]));
        }
    }
}

/// A text denotes a number where it is made of digits, at least one, alone or behind a plus
/// sign, and it denotes what they spell.
pub proof fn law_unsigned(digits: Seq<char>)
    ensures
        digits.len() > 0 && all_digits(digits) ==> unsigned_value(digits) == Some(
            digits_value(digits),
        ) && unsigned_value(seq!['+'] + digits) == Some(digits_value(digits)),
        digits.len() == 0 ==> unsigned_value(digits) is None && unsigned_value(seq!['+'] + digits)
            is None,
        digits.len() > 0 && digits[0] != '+' && !all_digits(digits) ==> unsigned_value(digits)
            is None && unsigned_value(seq!['+'] + digits) is None,
{
    let signed = seq!['+'] + digits;
    assert(signed.skip(1) =~= digits);
    if digits.len() > 0 && all_digits(digits) {
        assert(is_digit(digits[0]));
    }
}

/// Two digits at least: a zero before a single one.
pub proof fn law_two_digits(n: nat)
    ensures
        n < 10 ==> two_digits(n) == seq!['0', (48 + n) as char],
        n >= 10 ==> two_digits(n) == decimal(n),
{
    if n < 10 {
        assert(two_digits(n) =~= seq!['0', digit(n)]);
    }
}

/// The characters that are white space, by their code points.
pub proof fn law_white_space(c: char)
    ensures
        white_space(c) <==> (9 <= c as int <= 13 || c as int == 32 || c as int == 0x85 || c as int
            == 0xa0 || c as int == 0x1680 || 0x2000 <= c as int <= 0x200a || c as int == 0x2028
            || c as int == 0x2029 || c as int == 0x202f || c as int == 0x205f || c as int == 0x3000),
{
}

/// Whether a text is another one with characters of a kind before and behind it, and neither
/// starts nor ends with one itself.
pub open spec fn trims_to(text: Seq<char>, kind: spec_fn(char) -> bool, rest: Seq<char>) -> bool {
    exists|from: int, to: int|
        {
            &&& 0 <= from <= to <= text.len()
            &&& rest == #[trigger] text.subrange(from, to)
            &&& rest.len() > 0 ==> !kind(rest[0]) && !kind(rest.last())
            &&& forall|i: int| 0 <= i < from ==> kind(#[trigger] text[i])
            &&& forall|i: int| to <= i < text.len() ==> kind(#[trigger] text[i])
        }
}

/// A text that is trimmed has lost the white space at its two ends, and nothing else.
pub proof fn law_trimmed(text: Seq<char>)
    ensures
        trims_to(text, |c: char| white_space(c), trimmed(text)),
{
    let (from, to) = lemma_drop_ends(text, crate::text::white_spaces());
    let rest = trimmed(text);
    assert(rest == text.subrange(from, to));
    if rest.len() > 0 {
        assert(rest[0] == text[from]);
        assert(rest.last() == text[to - 1]);
    }
    assert forall|i: int| 0 <= i < from implies white_space(#[trigger] text[i]) by {
        assert(crate::text::white_spaces().contains(text[i]));
    }
    assert forall|i: int| to <= i < text.len() implies white_space(#[trigger] text[i]) by {
        assert(crate::text::white_spaces().contains(text[i]));
    }
}

/// A text without a character at its ends has lost that character there, and nothing else.
pub proof fn law_ends_dropped(text: Seq<char>, dropped: char)
    ensures
        trims_to(text, |c: char| c == dropped, drop_ends(text, set![dropped])),
{
    let (from, to) = lemma_drop_ends(text, set![dropped]);
    let rest = drop_ends(text, set![dropped]);
    assert(rest == text.subrange(from, to));
    if rest.len() > 0 {
        assert(rest[0] == text[from]);
        assert(rest.last() == text[to - 1]);
    }
    assert forall|i: int| 0 <= i < from implies #[trigger] text[i] == dropped by {
        assert(set![dropped].contains(text[i]));
    }
    assert forall|i: int| to <= i < text.len() implies #[trigger] text[i] == dropped by {
        assert(set![dropped].contains(text[i]));
    }
}

/// A text without a character at its end has lost that character there, and nothing else.
pub proof fn law_back_dropped(text: Seq<char>, dropped: char)
    ensures
        ({
            let rest = drop_back(text, set![dropped]);
            &&& rest.len() <= text.len()
            &&& rest == text.take(rest.len() as int)
            &&& rest.len() > 0 ==> rest.last() != dropped
            &&& forall|i: int| rest.len() <= i < text.len() ==> #[trigger] text[i] == dropped
        }),
{
    let to = lemma_drop_back(text, set![dropped]);
    let rest = drop_back(text, set![dropped]);
    assert(rest.len() == to);
    assert forall|i: int| rest.len() <= i < text.len() implies #[trigger] text[i] == dropped by {
        assert(set![dropped].contains(text[i]));
    }
}

/// Words stand in a text where a part of it is these words.
pub proof fn law_occurs(front: Seq<char>, words: Seq<char>, back: Seq<char>, text: Seq<char>)
    ensures
        occurs(front + words + back, words),
        occurs(text, words) ==> exists|at: int|
            0 <= at <= text.len() - words.len() && text == #[trigger] text.take(at) + words
                + text.skip(at + words.len()),
{
    let whole = front + words + back;
    let at = front.len() as int;
    assert(whole.subrange(at, at + words.len()) =~= words);
    if occurs(text, words) {
        let at = choose|at: int|
            0 <= at <= text.len() - words.len() && #[trigger] text.subrange(at, at + words.len())
                == words;
        assert(text =~= text.take(at) + text.subrange(at, at + words.len()) + text.skip(
            at + words.len(),
        ));
    }
}

/// A character is put in place of another, wherever that one stands.
pub proof fn law_replaced(text: Seq<char>, from: char, to: char, at: int)
    ensures
        replaced(text, from, to).len() == text.len(),
        0 <= at < text.len() && text[at] == from ==> replaced(text, from, to)[at] == to,
        0 <= at < text.len() && text[at] != from ==> replaced(text, from, to)[at] == text[at],
{
}

/// A text comes before another where it is the beginning of the other one, or where it has the
/// smaller character at the first position at which the two differ.
pub proof fn law_before(common: Seq<char>, c: char, d: char, a: Seq<char>, b: Seq<char>)
    ensures
        before(common, common.push(c) + a),
        !before(common.push(c) + a, common),
        c < d ==> before(common.push(c) + a, common.push(d) + b),
        c < d ==> !before(common.push(d) + b, common.push(c) + a),
        !before(common, common),
    decreases common.len(),
{
    let (left, right) = (common.push(c) + a, common.push(d) + b);
    if common.len() > 0 {
        law_before(common.skip(1), c, d, a, b);
        assert(left.skip(1) =~= common.skip(1).push(c) + a);
        assert(right.skip(1) =~= common.skip(1).push(d) + b);
        assert(left[0] == common[0] && right[0] == common[0]);
    } else {
        assert(left[0] == c && right[0] == d);
    }
}

/// Texts ascend where each comes before the next.
pub proof fn law_ascending(texts: Seq<Seq<char>>, i: int, j: int)
    requires
        ascending(texts),
        0 <= i < j < texts.len(),
    ensures
        before(texts[i], texts[j]),
{
}

}
