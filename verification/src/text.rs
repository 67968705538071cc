//! Texts as sequences of characters: the operations that the adapter's topics, keys and
//! messages are made of.
use vstd::prelude::*;

verus! {

broadcast use vstd::string::group_string_axioms;

/// `String::push` puts one character behind the text.
pub assume_specification[ String::push ](text: &mut String, c: char)
    ensures
        final(text)@ == old(text)@.push(c),
;

/// The decimal digit of a number below ten.
pub open spec fn digit(n: nat) -> char {
    (('0' as u32) + n) as char
}

/// A number in decimal notation, without leading zeros.
pub open spec fn decimal(n: nat) -> Seq<char>
    decreases n,
{
    if n < 10 {
        seq![digit(n)]
    } else {
        decimal(n / 10).push(digit(n % 10))
    }
}

/// A number in decimal notation, with at least two digits.
pub open spec fn two_digits(n: nat) -> Seq<char> {
    if n < 10 {
        seq!['0'] + decimal(n)
    } else {
        decimal(n)
    }
}

/// Whether a character is one of the ten decimal digits.
pub open spec fn is_digit(c: char) -> bool {
    '0' <= c <= '9'
}

/// Whether a sequence is made of decimal digits alone.
pub open spec fn all_digits(s: Seq<char>) -> bool {
    forall|i: int| 0 <= i < s.len() ==> is_digit(#[trigger] s[i])
}

/// The number that a sequence of decimal digits stands for.
pub open spec fn digits_value(s: Seq<char>) -> nat
    decreases s.len(),
{
    if s.len() == 0 {
        0
    } else {
        10 * digits_value(s.drop_last()) + (s.last() as u32 - '0' as u32) as nat
    }
}

/// The unsigned number that a text denotes: decimal digits, at least one, behind an
/// optional plus sign.
pub open spec fn unsigned_value(s: Seq<char>) -> Option<nat> {
    let digits = if s.len() > 0 && s[0] == '+' {
        s.skip(1)
    } else {
        s
    };
    if digits.len() > 0 && all_digits(digits) {
        Some(digits_value(digits))
    } else {
        None
    }
}

/// The characters with Unicode's `White_Space` property.
pub open spec fn white_space(c: char) -> bool {
    ||| '\u{9}' <= c <= '\u{d}'
    ||| c == ' '
    ||| c == '\u{85}'
    ||| c == '\u{a0}'
    ||| c == '\u{1680}'
    ||| '\u{2000}' <= c <= '\u{200a}'
    ||| c == '\u{2028}'
    ||| c == '\u{2029}'
    ||| c == '\u{202f}'
    ||| c == '\u{205f}'
    ||| c == '\u{3000}'
}

/// The set of the white space characters.
pub open spec fn white_spaces() -> Set<char> {
    Set::new(|c: char| white_space(c))
}

/// `s` from its first character outside `set` on.
pub open spec fn drop_front(s: Seq<char>, set: Set<char>) -> Seq<char>
    decreases s.len(),
{
    if s.len() > 0 && set.contains(s[0]) {
        drop_front(s.skip(1), set)
    } else {
        s
    }
}

/// `s` up to its last character outside `set`.
pub open spec fn drop_back(s: Seq<char>, set: Set<char>) -> Seq<char>
    decreases s.len(),
{
    if s.len() > 0 && set.contains(s.last()) {
        drop_back(s.drop_last(), set)
    } else {
        s
    }
}

/// `s` without the characters of `set` at its two ends.
pub open spec fn drop_ends(s: Seq<char>, set: Set<char>) -> Seq<char> {
    drop_back(drop_front(s, set), set)
}

/// `s` without white space at its two ends.
pub open spec fn trimmed(s: Seq<char>) -> Seq<char> {
    drop_ends(s, white_spaces())
}

/// Whether `needle` stands somewhere in `s`.
pub open spec fn occurs(s: Seq<char>, needle: Seq<char>) -> bool {
    exists|at: int|
        0 <= at <= s.len() - needle.len() && #[trigger] s.subrange(at, at + needle.len()) == needle
}

/// `s` with `new` in place of each `old_char`.
pub open spec fn replaced(s: Seq<char>, old_char: char, new: char) -> Seq<char> {
    Seq::new(s.len(), |i: int| if s[i] == old_char { new } else { s[i] })
}

/// Appends `n` in decimal notation.
pub fn push_decimal(out: &mut String, n: u64)
    ensures
        final(out)@ == old(out)@ + decimal(n as nat),
    decreases n,
{
    if n >= 10 {
        push_decimal(out, n / 10);
    }
    let last: u8 = (n % 10) as u8;
    out.push((48 + last) as char);
}

/// `n` in decimal notation.
pub fn decimal_text(n: u64) -> (text: String)
    ensures
        text@ == decimal(n as nat),
{
    let mut text = String::new();
    push_decimal(&mut text, n);
    text
}

/// Appends `n` in decimal notation, with at least two digits.
pub fn push_two_digits(out: &mut String, n: u64)
    ensures
        final(out)@ == old(out)@ + two_digits(n as nat),
{
    if n < 10 {
        out.push('0');
    }
    push_decimal(out, n);
}

/// The characters of a text.
pub fn chars_of(text: &str) -> (chars: Vec<char>)
    ensures
        chars@ == text@,
{
    let mut chars: Vec<char> = Vec::new();
    for c in iter: text.chars()
        invariant
            chars@ == iter.seq().take(iter.index() as int),
            iter.seq() == text@,
    {
        chars.push(c);
    }
    chars
}

/// The text that a range of characters makes up.
pub fn text_between(chars: &Vec<char>, from: usize, to: usize) -> (text: String)
    requires
        from <= to <= chars.len(),
    ensures
        text@ == chars@.subrange(from as int, to as int),
{
    let mut text = String::new();
    let mut next: usize = from;
    while next < to
        invariant
            from <= next <= to <= chars.len(),
            text@ == chars@.subrange(from as int, next as int),
        decreases to - next,
    {
        text.push(chars[next]);
        next = next + 1;
    }
    text
}

/// Whether the characters of `part` stand in `chars` from position `at` on.
fn stands_at(chars: &Vec<char>, at: usize, part: &Vec<char>) -> (found: bool)
    requires
        at + part.len() <= chars.len(),
    ensures
        found == (chars@.subrange(at as int, at + part.len()) == part@),
{
    let mut next: usize = 0;
    while next < part.len()
        invariant
            next <= part.len(),
            at + part.len() <= chars.len(),
            forall|i: int| 0 <= i < next ==> chars@[at + i] == part@[i],
        decreases part.len() - next,
    {
        if chars[at + next] != part[next] {
            assert(chars@.subrange(at as int, at + part.len())[next as int] != part@[next as int]);
            return false;
        }
        next = next + 1;
    }
    assert(chars@.subrange(at as int, at + part.len()) =~= part@);
    true
}

/// Whether two texts are the same.
pub fn same(a: &str, b: &str) -> (equal: bool)
    ensures
        equal == (a@ == b@),
{
    let left = chars_of(a);
    let right = chars_of(b);
    if left.len() != right.len() {
        return false;
    }
    assert(left@.subrange(0, right.len() as int) =~= left@);
    stands_at(&left, 0, &right)
}

/// What follows `prefix` in `text`, where `text` starts with it.
pub fn after_prefix(text: &str, prefix: &str) -> (rest: Option<String>)
    ensures
        match rest {
            Some(rest) => text@ == prefix@ + rest@,
            None => !prefix@.is_prefix_of(text@),
        },
{
    let chars = chars_of(text);
    let head = chars_of(prefix);
    if head.len() > chars.len() || !stands_at(&chars, 0, &head) {
        return None;
    }
    let rest = text_between(&chars, head.len(), chars.len());
    assert(text@ =~= prefix@ + rest@);
    Some(rest)
}

/// What precedes `suffix` in `text`, where `text` ends with it.
pub fn before_suffix(text: &str, suffix: &str) -> (rest: Option<String>)
    ensures
        match rest {
            Some(rest) => text@ == rest@ + suffix@,
            None => !suffix@.is_suffix_of(text@),
        },
{
    let chars = chars_of(text);
    let tail = chars_of(suffix);
    if tail.len() > chars.len() {
        return None;
    }
    let cut: usize = chars.len() - tail.len();
    if !stands_at(&chars, cut, &tail) {
        return None;
    }
    let rest = text_between(&chars, 0, cut);
    assert(text@ =~= rest@ + suffix@);
    Some(rest)
}

/// Whether `needle` stands somewhere in `text`.
pub fn contains(text: &str, needle: &str) -> (found: bool)
    ensures
        found == occurs(text@, needle@),
{
    let chars = chars_of(text);
    let part = chars_of(needle);
    if part.len() > chars.len() {
        return false;
    }
    let last: usize = chars.len() - part.len();
    let mut at: usize = 0;
    loop
        invariant
            chars@ == text@,
            part@ == needle@,
            last == chars.len() - part.len(),
            at <= last,
            forall|i: int|
                0 <= i < at ==> #[trigger] text@.subrange(i, i + needle@.len()) != needle@,
        decreases last - at,
    {
        if stands_at(&chars, at, &part) {
            return true;
        }
        if at == last {
            return false;
        }
        at = at + 1;
    }
}

/// `text` with `new` in place of each `old_char`.
pub fn replace_char(text: &str, old_char: char, new: char) -> (result: String)
    ensures
        result@ == replaced(text@, old_char, new),
{
    let mut result = String::new();
    for c in iter: text.chars()
        invariant
            result@ == replaced(text@, old_char, new).take(iter.index() as int),
            iter.seq() == text@,
    {
        if c == old_char {
            result.push(new);
        } else {
            result.push(c);
        }
    }
    assert(replaced(text@, old_char, new).take(text@.len() as int) =~= replaced(
        text@,
        old_char,
        new,
    ));
    result
}

/// Whether a character has Unicode's `White_Space` property.
pub fn is_white_space(c: char) -> (yes: bool)
    ensures
        yes == white_space(c),
{
    ('\u{9}' <= c && c <= '\u{d}') || c == ' ' || c == '\u{85}' || c == '\u{a0}' || c == '\u{1680}'
        || ('\u{2000}' <= c && c <= '\u{200a}') || c == '\u{2028}' || c == '\u{2029}' || c
        == '\u{202f}' || c == '\u{205f}' || c == '\u{3000}'
}

/// The characters that a strip removes: one character, or white space.
#[derive(Clone, Copy)]
enum Class {
    Only(char),
    WhiteSpace,
}

impl Class {
    spec fn set(self) -> Set<char> {
        match self {
            Class::Only(c) => set![c],
            Class::WhiteSpace => white_spaces(),
        }
    }

    fn has(self, c: char) -> (yes: bool)
        ensures
            yes == self.set().contains(c),
    {
        match self {
            Class::Only(only) => c == only,
            Class::WhiteSpace => is_white_space(c),
        }
    }
}

/// The number of characters of `class` at the front.
fn front_length(chars: &Vec<char>, class: Class) -> (length: usize)
    ensures
        length <= chars.len(),
        drop_front(chars@, class.set()) == chars@.skip(length as int),
{
    let mut length: usize = 0;
    assert(chars@.skip(0) =~= chars@);
    while length < chars.len() && class.has(chars[length])
        invariant
            length <= chars.len(),
            drop_front(chars@, class.set()) == drop_front(chars@.skip(length as int), class.set()),
        decreases chars.len() - length,
    {
        assert(chars@.skip(length as int).skip(1) =~= chars@.skip(length + 1));
        length = length + 1;
    }
    length
}

/// The position behind the last character outside `class`, not below `from`.
fn back_position(chars: &Vec<char>, from: usize, class: Class) -> (end: usize)
    requires
        from <= chars.len(),
    ensures
        from <= end <= chars.len(),
        drop_back(chars@.skip(from as int), class.set()) == chars@.subrange(
            from as int,
            end as int,
        ),
{
    let mut end: usize = chars.len();
    assert(chars@.subrange(from as int, end as int) =~= chars@.skip(from as int));
    while end > from && class.has(chars[end - 1])
        invariant
            from <= end <= chars.len(),
            drop_back(chars@.skip(from as int), class.set()) == drop_back(
                chars@.subrange(from as int, end as int),
                class.set(),
            ),
        decreases end,
    {
        assert(chars@.subrange(from as int, end as int).drop_last() =~= chars@.subrange(
            from as int,
            end - 1,
        ));
        end = end - 1;
    }
    end
}

fn strip_ends(text: &str, class: Class) -> (result: String)
    ensures
        result@ == drop_ends(text@, class.set()),
{
    let chars = chars_of(text);
    let from = front_length(&chars, class);
    let end = back_position(&chars, from, class);
    text_between(&chars, from, end)
}

/// `text` without white space at its two ends.
pub fn trim(text: &str) -> (result: String)
    ensures
        result@ == trimmed(text@),
{
    strip_ends(text, Class::WhiteSpace)
}

/// `text` without the character `c` at its two ends.
pub fn trim_char(text: &str, c: char) -> (result: String)
    ensures
        result@ == drop_ends(text@, set![c]),
{
    strip_ends(text, Class::Only(c))
}

/// `text` without the character `c` at its end.
pub fn trim_end_char(text: &str, c: char) -> (result: String)
    ensures
        result@ == drop_back(text@, set![c]),
{
    let chars = chars_of(text);
    let end = back_position(&chars, 0, Class::Only(c));
    assert(chars@.skip(0) =~= text@);
    text_between(&chars, 0, end)
}

/// Reads an unsigned number: decimal digits behind an optional plus sign. None where the
/// text is anything else, or the number does not fit.
pub fn parse_unsigned(text: &str) -> (number: Option<usize>)
    ensures
        match number {
            Some(n) => unsigned_value(text@) == Some(n as nat),
            None => match unsigned_value(text@) {
                Some(value) => value > usize::MAX,
                None => true,
            },
        },
{
    let chars = chars_of(text);
    let first: usize = if chars.len() > 0 && chars[0] == '+' {
        1
    } else {
        0
    };
    let ghost digits = chars@.skip(first as int);
    assert(first == 0 ==> digits =~= text@);
    if first == chars.len() {
        return None;
    }
    let mut value: usize = 0;
    let mut next: usize = first;
    while next < chars.len()
        invariant
            first <= next <= chars.len(),
            digits == chars@.skip(first as int),
            forall|i: int| 0 <= i < next - first ==> is_digit(#[trigger] digits[i]),
            value == digits_value(digits.take(next - first)),
            digits.len() > 0,
            unsigned_value(text@) == (if all_digits(digits) {
                Some(digits_value(digits))
            } else {
                None
            }),
        decreases chars.len() - next,
    {
        let c = chars[next];
        assert(c == digits[next - first]);
        if !('0' <= c && c <= '9') {
            return None;
        }
        let add: usize = (c as u32 - 48) as usize;
        assert(digits.take(next - first + 1).drop_last() =~= digits.take(next - first));
        if value > (usize::MAX - add) / 10 {
            proof {
                lemma_value_grows(digits, next - first + 1);
            }
            return None;
        }
        value = value * 10 + add;
        next = next + 1;
    }
    assert(digits.take(next - first) =~= digits);
    Some(value)
}

/// More digits never make the number smaller.
proof fn lemma_value_grows(s: Seq<char>, n: int)
    requires
        0 <= n <= s.len(),
    ensures
        digits_value(s.take(n)) <= digits_value(s),
    decreases s.len() - n,
{
    if n < s.len() {
        lemma_value_grows(s, n + 1);
        assert(s.take(n + 1).drop_last() =~= s.take(n));
    } else {
        assert(s.take(n) =~= s);
    }
}

/// What `drop_front` leaves is an end of the text that does not start with a character of
/// the set; where it drops nothing, the text did not.
pub proof fn lemma_drop_front(s: Seq<char>, set: Set<char>) -> (from: int)
    ensures
        0 <= from <= s.len(),
        drop_front(s, set) == s.skip(from),
        from < s.len() ==> !set.contains(s[from]),
        s.len() > 0 && !set.contains(s[0]) ==> from == 0,
        forall|i: int| 0 <= i < from ==> set.contains(#[trigger] s[i]),
    decreases s.len(),
{
    if s.len() > 0 && set.contains(s[0]) {
        let rest = lemma_drop_front(s.skip(1), set);
        assert(s.skip(1).skip(rest) =~= s.skip(rest + 1));
        assert forall|i: int| 0 <= i < rest + 1 implies set.contains(#[trigger] s[i]) by {
            if i > 0 {
                assert(s.skip(1)[i - 1] == s[i]);
            }
        }
        rest + 1
    } else {
        assert(s.skip(0) =~= s);
        0
    }
}

/// What `drop_back` leaves is a beginning of the text that does not end with a character
/// of the set; where it drops nothing, the text did not.
pub proof fn lemma_drop_back(s: Seq<char>, set: Set<char>) -> (to: int)
    ensures
        0 <= to <= s.len(),
        drop_back(s, set) == s.take(to),
        to > 0 ==> !set.contains(s[to - 1]),
        s.len() > 0 && !set.contains(s.last()) ==> to == s.len(),
        forall|i: int| to <= i < s.len() ==> set.contains(#[trigger] s[i]),
    decreases s.len(),
{
    if s.len() > 0 && set.contains(s.last()) {
        let to = lemma_drop_back(s.drop_last(), set);
        assert(s.drop_last().take(to) =~= s.take(to));
        assert forall|i: int| to <= i < s.len() implies set.contains(#[trigger] s[i]) by {
            if i < s.len() - 1 {
                assert(s.drop_last()[i] == s[i]);
            }
        }
        to
    } else {
        assert(s.take(s.len() as int) =~= s);
        s.len() as int
    }
}

/// A text without characters of a set at its ends: what is left is a part of the text that
/// neither starts nor ends with one, and what was dropped is made of them.
pub proof fn lemma_drop_ends(s: Seq<char>, set: Set<char>) -> (range: (int, int))
    ensures
        0 <= range.0 <= range.1 <= s.len(),
        drop_ends(s, set) == s.subrange(range.0, range.1),
        range.0 < range.1 ==> !set.contains(s[range.0]) && !set.contains(s[range.1 - 1]),
        s.len() > 0 && !set.contains(s[0]) && !set.contains(s.last()) ==> drop_ends(s, set) == s,
        forall|i: int|
            (0 <= i < range.0 || range.1 <= i < s.len()) ==> set.contains(#[trigger] s[i]),
{
    let from = lemma_drop_front(s, set);
    let rest = s.skip(from);
    let to = lemma_drop_back(rest, set);
    assert(rest.take(to) =~= s.subrange(from, from + to));
    if to > 0 {
        assert(rest[to - 1] == s[from + to - 1]);
        assert(from < s.len());
    }
    assert forall|i: int| (0 <= i < from || from + to <= i < s.len()) implies set.contains(
        #[trigger] s[i],
    ) by {
        if i >= from + to {
            assert(rest[i - from] == s[i]);
        }
    }
    if s.len() > 0 && !set.contains(s[0]) && !set.contains(s.last()) {
        assert(rest =~= s);
    }
    (from, from + to)
}

/// The decimal notation of a number is made of digits that spell it.
pub proof fn lemma_decimal(n: nat)
    ensures
        decimal(n).len() > 0,
        all_digits(decimal(n)),
        digits_value(decimal(n)) == n,
        decimal(n)[0] != '+',
        unsigned_value(decimal(n)) == Some(n),
    decreases n,
{
    reveal_with_fuel(digits_value, 2);
    if n >= 10 {
        lemma_decimal(n / 10);
        assert(decimal(n).drop_last() =~= decimal(n / 10));
    } else {
        assert(decimal(n).drop_last() =~= Seq::<char>::empty());
    }
}

/// The texts of a sequence.
pub open spec fn texts_of(texts: Seq<String>) -> Seq<Seq<char>> {
    Seq::new(texts.len(), |i: int| texts[i]@)
}

/// Whether a text comes before another in the order of their characters, as in a dictionary.
pub open spec fn before(a: Seq<char>, b: Seq<char>) -> bool
    decreases a.len(),
{
    if b.len() == 0 {
        false
    } else if a.len() == 0 {
        true
    } else {
        a[0] < b[0] || (a[0] == b[0] && before(a.skip(1), b.skip(1)))
    }
}

/// Whether each text comes before those behind it.
pub open spec fn ascending(texts: Seq<Seq<char>>) -> bool {
    forall|i: int, j: int|
        0 <= i < j < texts.len() ==> before(#[trigger] texts[i], #[trigger] texts[j])
}

/// No text comes before itself.
pub proof fn lemma_before_itself(a: Seq<char>)
    ensures
        !before(a, a),
    decreases a.len(),
{
    if a.len() > 0 {
        lemma_before_itself(a.skip(1));
    }
}

/// What comes before a text comes before all that the text comes before.
pub proof fn lemma_before_chain(a: Seq<char>, b: Seq<char>, c: Seq<char>)
    requires
        before(a, b),
        before(b, c),
    ensures
        before(a, c),
    decreases a.len(),
{
    if a.len() > 0 && a[0] == b[0] && b[0] == c[0] {
        lemma_before_chain(a.skip(1), b.skip(1), c.skip(1));
    }
}

/// Of two texts that differ, one comes before the other.
pub proof fn lemma_before_either(a: Seq<char>, b: Seq<char>)
    requires
        a != b,
    ensures
        before(a, b) || before(b, a),
    decreases a.len(),
{
    if a.len() > 0 && b.len() > 0 {
        if a[0] == b[0] {
            if a.skip(1) == b.skip(1) {
                assert(a =~= seq![a[0]] + a.skip(1));
                assert(b =~= seq![b[0]] + b.skip(1));
            }
            lemma_before_either(a.skip(1), b.skip(1));
        }
    } else if a.len() == 0 && b.len() == 0 {
        assert(a =~= b);
    }
}

/// In ascending order no text stands twice.
pub proof fn lemma_ascending(texts: Seq<Seq<char>>)
    requires
        ascending(texts),
    ensures
        texts.no_duplicates(),
{
    assert forall|i: int, j: int| 0 <= i < texts.len() && 0 <= j < texts.len() && i != j implies
    texts[i] != texts[j] by {
        lemma_before_itself(texts[i]);
        if i < j {
            assert(before(texts[i], texts[j]));
        } else {
            assert(before(texts[j], texts[i]));
        }
    }
}

/// Whether a text comes before another.
pub fn comes_before(a: &str, b: &str) -> (yes: bool)
    ensures
        yes == before(a@, b@),
{
    let left = chars_of(a);
    let right = chars_of(b);
    let mut next: usize = 0;
    assert(left@.skip(0) =~= left@);
    assert(right@.skip(0) =~= right@);
    while next < left.len() && next < right.len() && left[next] == right[next]
        invariant
            next <= left.len(),
            next <= right.len(),
            before(left@, right@) == before(left@.skip(next as int), right@.skip(next as int)),
        decreases left.len() - next,
    {
        assert(left@.skip(next as int).skip(1) =~= left@.skip(next + 1));
        assert(right@.skip(next as int).skip(1) =~= right@.skip(next + 1));
        next = next + 1;
    }
    if next >= right.len() {
        false
    } else if next >= left.len() {
        true
    } else {
        left[next] < right[next]
    }
}

/// Puts a text among texts in ascending order, of which it is none.
pub(crate) fn insert_ascending(texts: &mut Vec<String>, text: String)
    requires
        ascending(texts_of(old(texts)@)),
        !texts_of(old(texts)@).contains(text@),
    ensures
        ascending(texts_of(final(texts)@)),
        forall|other: Seq<char>|
            #[trigger] texts_of(final(texts)@).contains(other) <==> (other == text@ || texts_of(
                old(texts)@,
            ).contains(other)),
{
    let ghost all = texts_of(texts@);
    let ghost new = text@;
    let mut at: usize = 0;
    while at < texts.len() && comes_before(texts[at].as_str(), text.as_str())
        invariant
            at <= texts.len(),
            all == texts_of(texts@),
            new == text@,
            forall|i: int| 0 <= i < at ==> before(#[trigger] all[i], new),
        decreases texts.len() - at,
    {
        at = at + 1;
    }
    let ghost place = at as int;
    texts.insert(at, text);
    proof {
        let now = texts_of(texts@);
        assert(now =~= all.insert(place, new));
        assert forall|i: int| place <= i < all.len() implies before(new, #[trigger] all[i]) by {
            assert(all[place] != new) by {
                assert(all.contains(all[place]));
            }
            lemma_before_either(all[place], new);
            if place < i {
                lemma_before_chain(new, all[place], all[i]);
            }
        }
        assert forall|i: int, j: int| 0 <= i < j < now.len() implies before(
            #[trigger] now[i],
            #[trigger] now[j],
        ) by {
            let left = if i < place { i } else { i - 1 };
            let right = if j < place { j } else { j - 1 };
            if i != place && j != place {
                assert(before(all[left], all[right]));
            }
        }
        assert forall|other: Seq<char>| #[trigger] now.contains(other) <==> (other == new
            || all.contains(other)) by {
            if now.contains(other) {
                let i = choose|i: int| 0 <= i < now.len() && now[i] == other;
                if i < place {
                    assert(all[i] == other);
                } else if i > place {
                    assert(all[i - 1] == other);
                }
            }
            if other == new {
                assert(now[place] == other);
            }
            if all.contains(other) {
                let i = choose|i: int| 0 <= i < all.len() && all[i] == other;
                if i < place {
                    assert(now[i] == other);
                } else {
                    assert(now[i + 1] == other);
                }
            }
        }
    }
}

}
