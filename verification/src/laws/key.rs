//! What holds of the keys that stand for names.
use vstd::prelude::*;

use crate::dashboard::{ascii, key_of, lowered, separator, squeezed};
use crate::text::{drop_ends, lemma_drop_ends};

verus! {

/// What `squeezed` leaves has no separator but the underscore, and no two of them next to
/// each other.
proof fn lemma_squeezed(text: Seq<char>)
    ensures
        forall|i: int|
            0 <= i < squeezed(text).len() ==> (separator(#[trigger] squeezed(text)[i])
                ==> squeezed(text)[i] == '_'),
        forall|i: int|
            0 < i < squeezed(text).len() && #[trigger] squeezed(text)[i] == '_' ==> squeezed(
                text,
            )[i - 1] != '_',
    decreases text.len(),
{
    if text.len() > 0 {
        lemma_squeezed(text.drop_last());
        let head = squeezed(text.drop_last());
        let all = squeezed(text);
        assert(forall|i: int| 0 <= i < head.len() ==> #[trigger] all[i] == head[i]);
        assert forall|i: int| 0 < i < all.len() && #[trigger] all[i] == '_' implies all[i - 1]
            != '_' by {
            if i < head.len() {
                assert(head[i] == '_');
                assert(all[i - 1] == head[i - 1]);
            } else {
                assert(all[i - 1] == head.last());
            }
        }
    }
}

/// Whether a text is a key: words without separators, one underscore between two of them.
pub open spec fn is_key(text: Seq<char>) -> bool {
    &&& forall|i: int| 0 <= i < text.len() ==> (separator(#[trigger] text[i]) ==> text[i] == '_')
    &&& forall|i: int| 0 < i < text.len() && #[trigger] text[i] == '_' ==> text[i - 1] != '_'
    &&& text.len() > 0 ==> text[0] != '_' && text.last() != '_'
}

/// What stands for a name is a key, whatever the name.
pub proof fn law_key_shape(text: Seq<char>)
    ensures
        is_key(key_of(text)),
{
    lemma_squeezed(text);
    let whole = squeezed(text);
    let (from, to) = lemma_drop_ends(whole, set!['_']);
    let key = key_of(text);
    assert forall|i: int| 0 < i < key.len() && #[trigger] key[i] == '_' implies key[i - 1]
        != '_' by {
        assert(whole[from + i] == '_');
        assert(whole[from + i - 1] == key[i - 1]);
    }
}

proof fn lemma_key_squeezed(text: Seq<char>)
    requires
        forall|i: int| 0 <= i < text.len() ==> (separator(#[trigger] text[i]) ==> text[i] == '_'),
        forall|i: int| 0 < i < text.len() && #[trigger] text[i] == '_' ==> text[i - 1] != '_',
    ensures
        squeezed(text) == text,
    decreases text.len(),
{
    if text.len() > 0 {
        let head = text.drop_last();
        lemma_key_squeezed(head);
        assert(head.push(text.last()) =~= text);
        if text.last() == '_' && head.len() > 0 {
            assert(text[text.len() - 1] == '_');
            assert(head.last() == text[text.len() - 2]);
        }
    }
}

/// A key stands for itself.
pub proof fn law_key_again(text: Seq<char>)
    ensures
        key_of(key_of(text)) == key_of(text),
{
    law_key_shape(text);
    let key = key_of(text);
    lemma_key_squeezed(key);
    lemma_drop_ends(key, set!['_']);
    if key.len() == 0 {
        assert(drop_ends(key, set!['_']) == key);
    }
}

/// What `squeezed` leaves of a text in lower case is one, of ASCII where the text is.
proof fn lemma_squeezed_lower(text: Seq<char>)
    requires
        forall|i: int| 0 <= i < text.len() ==> plain(#[trigger] text[i]),
    ensures
        forall|i: int| 0 <= i < squeezed(text).len() ==> plain(#[trigger] squeezed(text)[i]),
    decreases text.len(),
{
    if text.len() > 0 {
        let head = squeezed(text.drop_last());
        lemma_squeezed_lower(text.drop_last());
        assert(plain(text[text.len() - 1]));
        assert(forall|i: int| 0 <= i < head.len() ==> #[trigger] squeezed(text)[i] == head[i]);
    }
}

/// A character of ASCII that is no capital letter.
spec fn plain(c: char) -> bool {
    c <= '\u{7f}' && !('A' <= c <= 'Z')
}

/// The key of an ASCII name stands for itself as a name.
pub proof fn law_name_again(name: Seq<char>)
    requires
        ascii(name),
    ensures
        key_of(lowered(key_of(lowered(name)))) == key_of(lowered(name)),
{
    let text = lowered(name);
    assert forall|i: int| 0 <= i < text.len() implies plain(#[trigger] text[i]) by {
        assert(name[i] <= '\u{7f}');
    }
    lemma_squeezed_lower(text);
    let key = key_of(text);
    let (from, to) = lemma_drop_ends(squeezed(text), set!['_']);
    assert forall|i: int| 0 <= i < key.len() implies plain(#[trigger] key[i]) by {
        assert(plain(squeezed(text)[from + i]));
    }
    assert(ascii(key));
    assert(lowered(key) =~= key);
    law_key_again(text);
}

/// What parts the words of a name: a space, a round bracket, a point, a hyphen or an
/// underscore.
pub proof fn law_separators(c: char)
    ensures
        separator(c) <==> seq![' ', '(', ')', '.', '-', '_'].contains(c),
{
    let all = seq![' ', '(', ')', '.', '-', '_'];
    assert(all[0] == ' ' && all[1] == '(' && all[2] == ')' && all[3] == '.' && all[4] == '-'
        && all[5] == '_');
}

/// The letters of an ASCII name are lowered one by one, and nothing else is changed.
pub proof fn law_lowered(name: Seq<char>)
    requires
        forall|i: int| 0 <= i < name.len() ==> (#[trigger] name[i] as int) < 128,
    ensures
        lowered(name).len() == name.len(),
        forall|i: int|
            0 <= i < name.len() ==> (#[trigger] lowered(name)[i] as int) == (if 65 <= name[i] as int
                <= 90 {
                name[i] as int + 32
            } else {
                name[i] as int
            }),
{
    assert(ascii(name));
}

/// A character that is no ASCII makes a name one whose lower case is taken from outside.
pub proof fn law_lowered_elsewhere(name: Seq<char>, at: int)
    requires
        0 <= at < name.len(),
        name[at] as int >= 128,
    ensures
        lowered(name) == crate::dashboard::lower_case(name),
{
    if ascii(name) {
        assert(name[at] <= '\u{7f}');
    }
}

/// A text of separators alone.
pub open spec fn gap(text: Seq<char>) -> bool {
    forall|i: int| 0 <= i < text.len() ==> separator(#[trigger] text[i])
}

/// Two texts next to each other are squeezed one by one, and then two underscores that meet
/// become one.
proof fn lemma_squeezed_append(a: Seq<char>, b: Seq<char>)
    ensures
        ({
            let (left, right) = (squeezed(a), squeezed(b));
            squeezed(a + b) == left + (if left.len() > 0 && left.last() == '_' && right.len() > 0
                && right[0] == '_' {
                right.skip(1)
            } else {
                right
            })
        }),
        b.len() > 0 ==> squeezed(b).len() > 0,
    decreases b.len(),
{
    if b.len() == 0 {
        assert(a + b =~= a);
        assert(squeezed(a) + squeezed(b) =~= squeezed(a));
    } else {
        let rest = b.drop_last();
        lemma_squeezed_append(a, rest);
        assert((a + b).drop_last() =~= a + rest);
        assert((a + b).last() == b.last());
        let (left, before, right) = (squeezed(a), squeezed(rest), squeezed(b));
        let meets = left.len() > 0 && left.last() == '_';
        let joined = squeezed(a + rest);
        if rest.len() == 0 {
            assert(before.len() == 0);
            assert(joined =~= left);
            assert(seq!['_'].skip(1) =~= Seq::<char>::empty());
            assert(right.len() == 1);
            assert(right.skip(1) =~= Seq::<char>::empty());
        } else {
            assert(before.len() > 0);
            assert(right.len() >= before.len());
            assert(right[0] == before[0]);
            if meets && before[0] == '_' {
                if before.len() > 1 {
                    assert(joined.last() == before.last());
                } else {
                    assert(joined =~= left);
                    assert(joined.last() == '_' && before.last() == '_');
                }
            } else {
                assert(joined.last() == before.last());
            }
        }
        assert(squeezed(a + b) =~= left + (if meets && right.len() > 0 && right[0] == '_' {
            right.skip(1)
        } else {
            right
        }));
    }
}

/// A text without separators is squeezed to itself.
proof fn lemma_word_squeezed(word: Seq<char>)
    requires
        forall|i: int| 0 <= i < word.len() ==> !separator(#[trigger] word[i]),
    ensures
        squeezed(word) == word,
{
    lemma_key_squeezed(word);
}

/// A gap is squeezed to one underscore.
proof fn lemma_gap_squeezed(text: Seq<char>)
    requires
        gap(text),
        text.len() > 0,
    ensures
        squeezed(text) == seq!['_'],
    decreases text.len(),
{
    let rest = text.drop_last();
    assert(separator(text[text.len() - 1]));
    if rest.len() > 0 {
        assert forall|i: int| 0 <= i < rest.len() implies separator(#[trigger] rest[i]) by {
            assert(rest[i] == text[i]);
        }
        lemma_gap_squeezed(rest);
    } else {
        assert(squeezed(rest) =~= Seq::<char>::empty());
        assert(squeezed(text) =~= seq!['_']);
    }
}

/// What stands between underscores, with others at its ends, is what is left of it.
proof fn lemma_core(front: Seq<char>, core: Seq<char>, back: Seq<char>)
    requires
        forall|i: int| 0 <= i < front.len() ==> #[trigger] front[i] == '_',
        forall|i: int| 0 <= i < back.len() ==> #[trigger] back[i] == '_',
        core.len() > 0 ==> core[0] != '_' && core.last() != '_',
    ensures
        drop_ends(front + core + back, set!['_']) == core,
{
    let whole = front + core + back;
    let (from, to) = lemma_drop_ends(whole, set!['_']);
    if core.len() > 0 {
        let (n, m) = (front.len() as int, (front.len() + core.len()) as int);
        assert(whole[n] == core[0]);
        assert(whole[m - 1] == core.last());
        if from > n {
            assert(set!['_'].contains(whole[n]));
        }
        if to <= n {
            assert(set!['_'].contains(whole[n]));
        }
        if from < n {
            assert(whole[from] == front[from]);
        }
        if to < m {
            assert(set!['_'].contains(whole[m - 1]));
        }
        if to > m {
            assert(whole[to - 1] == back[to - 1 - m]);
        }
        assert(whole.subrange(n, m) =~= core);
    } else if from < to {
        if from < front.len() {
            assert(whole[from] == front[from]);
        } else {
            assert(whole[from] == back[from - front.len()]);
        }
    } else {
        assert(whole.subrange(from, to) =~= core);
    }
}

/// A squeezed text is its key with an underscore at most at each end.
proof fn lemma_ends(text: Seq<char>) -> (ends: (Seq<char>, Seq<char>))
    ensures
        squeezed(text) == ends.0 + key_of(text) + ends.1,
        forall|i: int| 0 <= i < ends.0.len() ==> #[trigger] ends.0[i] == '_',
        forall|i: int| 0 <= i < ends.1.len() ==> #[trigger] ends.1[i] == '_',
{
    let whole = squeezed(text);
    let (from, to) = lemma_drop_ends(whole, set!['_']);
    let (front, back) = (whole.take(from), whole.skip(to));
    assert(whole =~= front + whole.subrange(from, to) + back);
    assert forall|i: int| 0 <= i < front.len() implies #[trigger] front[i] == '_' by {
        assert(set!['_'].contains(whole[i]));
    }
    assert forall|i: int| 0 <= i < back.len() implies #[trigger] back[i] == '_' by {
        assert(set!['_'].contains(whole[to + i]));
    }
    (front, back)
}

/// A word without separators is its own key, and separators alone have an empty one.
pub proof fn law_key_of_word(word: Seq<char>, blank: Seq<char>)
    requires
        forall|i: int| 0 <= i < word.len() ==> !separator(#[trigger] word[i]),
        gap(blank),
    ensures
        key_of(word) == word,
        key_of(blank).len() == 0,
{
    lemma_word_squeezed(word);
    let none = Seq::<char>::empty();
    assert(none + word + none =~= word);
    lemma_core(none, word, none);
    if blank.len() > 0 {
        lemma_gap_squeezed(blank);
        assert(seq!['_'] + none + none =~= seq!['_']);
        lemma_core(seq!['_'], none, none);
    } else {
        assert(squeezed(blank) =~= none);
        assert(none + none + none =~= none);
        lemma_core(none, none, none);
    }
}

/// The key of two names with separators between them is their keys with one underscore
/// between them, however many separators there are.
pub proof fn law_keys_joined(a: Seq<char>, between: Seq<char>, b: Seq<char>)
    requires
        gap(between),
        between.len() > 0,
        key_of(a).len() > 0,
        key_of(b).len() > 0,
    ensures
        key_of(a + between + b) == key_of(a) + seq!['_'] + key_of(b),
{
    lemma_gap_squeezed(between);
    lemma_squeezed_append(a, between);
    lemma_squeezed_append(a + between, b);
    let (af, ab) = lemma_ends(a);
    let (bf, bb) = lemma_ends(b);
    let (ka, kb) = (key_of(a), key_of(b));
    law_key_shape(a);
    law_key_shape(b);
    let (left, right) = (squeezed(a), squeezed(b));
    lemma_squeezed(a);
    lemma_squeezed(b);
    assert(seq!['_'].skip(1) =~= Seq::<char>::empty());
    // The left part ends with one underscore, whether the name did or not.
    assert(ab.len() <= 1) by {
        if ab.len() > 1 {
            assert(left[left.len() - 1] == '_' && left[left.len() - 2] == '_');
        }
    }
    assert(bf.len() <= 1) by {
        if bf.len() > 1 {
            assert(right[0] == '_' && right[1] == '_');
        }
    }
    let middle = squeezed(a + between);
    if ab.len() == 0 {
        assert(left.last() == ka.last());
        assert(middle =~= af + ka + seq!['_']);
    } else {
        assert(left.last() == '_');
        assert(ab =~= seq!['_']);
        assert(middle =~= af + ka + seq!['_']);
    }
    assert(middle.last() == '_');
    if bf.len() == 0 {
        assert(right[0] == kb[0]);
    } else {
        assert(right[0] == '_');
        assert(right.skip(1) =~= kb + bb);
    }
    let core = ka + seq!['_'] + kb;
    assert(squeezed(a + between + b) =~= af + core + bb);
    lemma_core(af, core, bb);
}

/// Separators before and behind a name do not change its key.
pub proof fn law_key_ends(front: Seq<char>, name: Seq<char>, back: Seq<char>)
    requires
        gap(front),
        gap(back),
    ensures
        key_of(front + name + back) == key_of(name),
{
    lemma_squeezed_append(front, name);
    lemma_squeezed_append(front + name, back);
    let (nf, nb) = lemma_ends(name);
    let key = key_of(name);
    law_key_shape(name);
    let none = Seq::<char>::empty();
    let f = squeezed(front);
    let b = squeezed(back);
    if front.len() > 0 {
        lemma_gap_squeezed(front);
    } else {
        assert(f =~= none);
    }
    if back.len() > 0 {
        lemma_gap_squeezed(back);
    } else {
        assert(b =~= none);
    }
    let n = squeezed(name);
    let whole = squeezed(front + name + back);
    let left = squeezed(front + name);
    // What surrounds the key is made of underscores alone.
    if key.len() > 0 {
        let lf = if f.len() > 0 && n[0] == '_' {
            f + nf.skip(1)
        } else {
            f + nf
        };
        assert(n[0] == (if nf.len() > 0 {
            nf[0]
        } else {
            key[0]
        }));
        assert(left =~= lf + key + nb);
        assert forall|i: int| 0 <= i < lf.len() implies #[trigger] lf[i] == '_' by {
            if i < f.len() {
                assert(f[i] == '_');
            } else if f.len() > 0 && n[0] == '_' {
                assert(nf[i - f.len() + 1] == '_');
            } else {
                assert(nf[i - f.len()] == '_');
            }
        }
        let rb = if left.last() == '_' && b.len() > 0 {
            nb
        } else {
            nb + b
        };
        assert(b.skip(1) =~= none || b.len() == 0);
        assert(whole =~= lf + key + rb);
        lemma_core(lf, key, rb);
    } else {
        assert forall|i: int| 0 <= i < n.len() implies #[trigger] n[i] == '_' by {
            if i < nf.len() {
                assert(nf[i] == '_');
            } else {
                assert(nb[i - nf.len()] == '_');
            }
        }
        assert forall|i: int| 0 <= i < left.len() implies #[trigger] left[i] == '_' by {
            if i < f.len() {
                assert(f[i] == '_');
            } else if f.len() > 0 && n.len() > 0 && n[0] == '_' && f.last() == '_' {
                assert(n[i - f.len() + 1] == '_');
            } else {
                assert(n[i - f.len()] == '_');
            }
        }
        assert forall|i: int| 0 <= i < whole.len() implies #[trigger] whole[i] == '_' by {
            if i < left.len() {
                assert(left[i] == '_');
            } else if left.len() > 0 && b.len() > 0 && left.last() == '_' && b[0] == '_' {
                assert(b[i - left.len() + 1] == '_');
            } else {
                assert(b[i - left.len()] == '_');
            }
        }
        assert(whole + none + none =~= whole);
        lemma_core(whole, none, none);
        assert(key =~= none);
    }
}

}
