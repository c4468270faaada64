//! Splitting an argument line into words.
//!
//! An argument line is cut at every whitespace character and the empty
//! pieces are dropped. There is no quoting and no escaping: a quotation mark
//! is an ordinary character, and an argument cannot contain a blank.

use vstd::prelude::*;
use crate::text::{chars_of, push_char};

verus! {

/// The characters that separate words: those with the Unicode property
/// `White_Space`.
pub open spec fn is_whitespace(c: char) -> bool {
    let n = c as u32;
    ||| 0x09 <= n <= 0x0D
    ||| n == 0x20
    ||| n == 0x85
    ||| n == 0xA0
    ||| n == 0x1680
    ||| 0x2000 <= n <= 0x200A
    ||| n == 0x2028
    ||| n == 0x2029
    ||| n == 0x202F
    ||| n == 0x205F
    ||| n == 0x3000
}

/// The pieces that `s` falls into when it is cut at every whitespace
/// character. There is one more piece than there are whitespace characters,
/// and a piece is empty where two of them meet or one stands at an end.
pub open spec fn pieces(s: Seq<char>) -> Seq<Seq<char>>
    decreases s.len(),
{
    if s.len() == 0 {
        seq![Seq::<char>::empty()]
    } else {
        let before = pieces(s.drop_last());
        if is_whitespace(s.last()) {
            before.push(Seq::<char>::empty())
        } else {
            before.drop_last().push(before.last().push(s.last()))
        }
    }
}

/// The test that keeps a piece: it has at least one character.
pub open spec fn not_empty() -> spec_fn(Seq<char>) -> bool {
    |piece: Seq<char>| piece.len() > 0
}

/// The words of `s`: its non-empty pieces, in order.
pub open spec fn words(s: Seq<char>) -> Seq<Seq<char>> {
    pieces(s).filter(not_empty())
}

/// The texts held by a sequence of strings.
pub open spec fn texts(v: Seq<String>) -> Seq<Seq<char>> {
    v.map_values(|t: String| t@)
}

/// Every text has at least one piece.
pub proof fn lemma_pieces_nonempty(s: Seq<char>)
    ensures
        pieces(s).len() >= 1,
    decreases s.len(),
{
    if s.len() > 0 {
        lemma_pieces_nonempty(s.drop_last());
    }
}

/// No piece holds a whitespace character.
pub proof fn lemma_pieces_hold_no_whitespace(s: Seq<char>)
    ensures
        forall|i: int, j: int|
            0 <= i < pieces(s).len() && 0 <= j < pieces(s)[i].len() ==> !is_whitespace(
                #[trigger] pieces(s)[i][j],
            ),
    decreases s.len(),
{
    if s.len() > 0 {
        lemma_pieces_hold_no_whitespace(s.drop_last());
        lemma_pieces_nonempty(s.drop_last());
    }
}

/// A text without whitespace is one piece.
pub proof fn lemma_pieces_of_unbroken_text(s: Seq<char>)
    requires
        forall|j: int| 0 <= j < s.len() ==> !is_whitespace(#[trigger] s[j]),
    ensures
        pieces(s) == seq![s],
    decreases s.len(),
{
    if s.len() > 0 {
        lemma_pieces_of_unbroken_text(s.drop_last());
        assert(s.drop_last().push(s.last()) == s);
        assert(seq![s.drop_last()].drop_last().push(s) == seq![s]);
    } else {
        assert(s == Seq::<char>::empty());
    }
}

/// A whitespace character parts the pieces before it from those after it.
pub proof fn lemma_pieces_around_whitespace(a: Seq<char>, c: char, b: Seq<char>)
    requires
        is_whitespace(c),
    ensures
        pieces(a.push(c) + b) == pieces(a) + pieces(b),
    decreases b.len(),
{
    let whole = a.push(c) + b;
    if b.len() == 0 {
        assert(whole == a.push(c));
        assert(whole.drop_last() == a);
        assert(pieces(a).push(Seq::<char>::empty()) == pieces(a) + pieces(b));
    } else {
        let shorter = b.drop_last();
        lemma_pieces_around_whitespace(a, c, shorter);
        lemma_pieces_nonempty(shorter);
        assert(whole.drop_last() == a.push(c) + shorter);
        assert(whole.last() == b.last());
        let left = pieces(a);
        let right = pieces(shorter);
        if is_whitespace(b.last()) {
            assert((left + right).push(Seq::<char>::empty()) == left + right.push(
                Seq::<char>::empty(),
            ));
        } else {
            assert((left + right).drop_last() == left + right.drop_last());
            assert((left + right).last() == right.last());
            assert((left + right.drop_last()).push(right.last().push(b.last())) == left
                + right.drop_last().push(right.last().push(b.last())));
        }
    }
}

/// Every word has at least one character and holds no whitespace.
pub proof fn lemma_words_are_unbroken(s: Seq<char>)
    ensures
        forall|i: int| 0 <= i < words(s).len() ==> (#[trigger] words(s)[i]).len() > 0,
        forall|i: int, j: int|
            0 <= i < words(s).len() && 0 <= j < words(s)[i].len() ==> !is_whitespace(
                #[trigger] words(s)[i][j],
            ),
{
    let all = pieces(s);
    let kept = words(s);
    lemma_pieces_hold_no_whitespace(s);
    assert forall|i: int| 0 <= i < kept.len() implies (#[trigger] kept[i]).len() > 0 && forall|
        j: int,
    |
        0 <= j < kept[i].len() ==> !is_whitespace(#[trigger] kept[i][j]) by {
        all.lemma_filter_pred(not_empty(), i);
        all.lemma_filter_contains_rev(not_empty(), kept[i]);
        let k = choose|k: int| 0 <= k < all.len() && all[k] == kept[i];
        assert forall|j: int| 0 <= j < kept[i].len() implies !is_whitespace(
            #[trigger] kept[i][j],
        ) by {
            assert(kept[i][j] == pieces(s)[k][j]);
        }
    }
}

/// A text without whitespace is its own single word, and the empty text has
/// no word.
pub proof fn lemma_words_of_unbroken_text(s: Seq<char>)
    requires
        forall|j: int| 0 <= j < s.len() ==> !is_whitespace(#[trigger] s[j]),
    ensures
        s.len() > 0 ==> words(s) == seq![s],
        s.len() == 0 ==> words(s) == Seq::<Seq<char>>::empty(),
{
    lemma_pieces_of_unbroken_text(s);
    reveal(Seq::filter);
    assert(seq![s].drop_last() == Seq::<Seq<char>>::empty());
    assert(Seq::<Seq<char>>::empty().filter(not_empty()) == Seq::<Seq<char>>::empty());
    assert(seq![s].last() == s);
    if s.len() > 0 {
        assert(Seq::<Seq<char>>::empty().push(s) == seq![s]);
    }
}

/// The words of a text with a whitespace character in it are the words
/// before that character followed by the words after it. With the law for a
/// text without whitespace, this says what the words of every text are.
pub proof fn lemma_words_around_whitespace(a: Seq<char>, c: char, b: Seq<char>)
    requires
        is_whitespace(c),
    ensures
        words(a.push(c) + b) == words(a) + words(b),
{
    lemma_pieces_around_whitespace(a, c, b);
    Seq::filter_distributes_over_add(pieces(a), pieces(b), not_empty());
}

/// Tells whether `c` separates words.
pub fn is_whitespace_char(c: char) -> (b: bool)
    ensures
        b == is_whitespace(c),
{
    let n: u32 = c as u32;
    (0x09 <= n && n <= 0x0D) || n == 0x20 || n == 0x85 || n == 0xA0 || n == 0x1680 || (0x2000 <= n
        && n <= 0x200A) || n == 0x2028 || n == 0x2029 || n == 0x202F || n == 0x205F || n == 0x3000
}

/// Splits `line` into its words.
pub fn split_whitespace(line: &str) -> (tokens: Vec<String>)
    ensures
        texts(tokens@) == words(line@),
{
    let chars = chars_of(line);
    let mut done: Vec<String> = Vec::new();
    let mut current = String::new();
    let mut in_word = false;
    let mut i: usize = 0;
    proof {
        reveal(Seq::filter);
        assert(chars@.take(0) == Seq::<char>::empty());
        assert(pieces(chars@.take(0)).drop_last() == Seq::<Seq<char>>::empty());
        assert(texts(done@) == Seq::<Seq<char>>::empty());
    }
    while i < chars.len()
        invariant
            i <= chars.len(),
            texts(done@) == pieces(chars@.take(i as int)).drop_last().filter(not_empty()),
            current@ == pieces(chars@.take(i as int)).last(),
            in_word == (current@.len() > 0),
        decreases chars.len() - i,
    {
        let c = chars[i];
        let ghost before = pieces(chars@.take(i as int));
        proof {
            lemma_pieces_nonempty(chars@.take(i as int));
            assert(chars@.take(i + 1).drop_last() == chars@.take(i as int));
            assert(chars@.take(i + 1).last() == c);
            assert(before == before.drop_last().push(before.last()));
            before.drop_last().lemma_filter_push(before.last(), not_empty());
        }
        if is_whitespace_char(c) {
            if in_word {
                let ghost old_done = done@;
                done.push(current);
                current = String::new();
                in_word = false;
                assert(texts(done@) == texts(old_done).push(before.last()));
            }
            assert(pieces(chars@.take(i + 1)).drop_last() == before);
        } else {
            push_char(&mut current, c);
            in_word = true;
            assert(pieces(chars@.take(i + 1)).drop_last() == before.drop_last());
        }
        i += 1;
    }
    let ghost all = pieces(chars@);
    proof {
        assert(chars@.take(chars.len() as int) == chars@);
        lemma_pieces_nonempty(chars@);
        assert(all == all.drop_last().push(all.last()));
        all.drop_last().lemma_filter_push(all.last(), not_empty());
    }
    if in_word {
        let ghost old_done = done@;
        done.push(current);
        assert(texts(done@) == texts(old_done).push(all.last()));
    }
    done
}

} // verus!
