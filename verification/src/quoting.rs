//! Quoting of free text that is placed inside a generated command line.
//!
//! The command interpreter reads a literal between two single quotes and
//! takes two single quotes in a row, inside it, for one. Text is therefore
//! made safe by doubling every single quote in it: what stands between the
//! outer quotes is then read back as the very text that went in, and cannot
//! close the literal early.

use vstd::prelude::*;
use crate::text::{chars_of, push_char};

verus! {

/// What one character becomes: a single quote is doubled, any other
/// character stays.
pub open spec fn doubled(c: char) -> Seq<char> {
    if c == '\'' {
        seq!['\'', '\'']
    } else {
        seq![c]
    }
}

/// `s` with every single quote doubled.
pub open spec fn escaped(s: Seq<char>) -> Seq<char>
    decreases s.len(),
{
    if s.len() == 0 {
        Seq::<char>::empty()
    } else {
        escaped(s.drop_last()) + doubled(s.last())
    }
}

/// The text that the interpreter reads from the body of a single-quoted
/// literal, or `None` where a single quote stands alone in it, which would
/// end the literal there.
pub open spec fn read_literal(body: Seq<char>) -> Option<Seq<char>>
    decreases body.len(),
{
    if body.len() == 0 {
        Some(Seq::<char>::empty())
    } else if body[0] != '\'' {
        match read_literal(body.skip(1)) {
            Some(rest) => Some(seq![body[0]] + rest),
            None => None,
        }
    } else if body.len() >= 2 && body[1] == '\'' {
        match read_literal(body.skip(2)) {
            Some(rest) => Some(seq!['\''] + rest),
            None => None,
        }
    } else {
        None
    }
}

/// Escaping works character by character from the front as well.
pub proof fn lemma_escaped_front(c: char, s: Seq<char>)
    ensures
        escaped(seq![c] + s) == doubled(c) + escaped(s),
    decreases s.len(),
{
    let whole = seq![c] + s;
    if s.len() == 0 {
        assert(whole.drop_last() == Seq::<char>::empty());
        assert(escaped(whole) == escaped(whole.drop_last()) + doubled(whole.last()));
        assert(escaped(whole) == doubled(c) + escaped(s));
    } else {
        lemma_escaped_front(c, s.drop_last());
        assert(whole.drop_last() == seq![c] + s.drop_last());
        assert(whole.last() == s.last());
        assert(escaped(whole) == (doubled(c) + escaped(s.drop_last())) + doubled(s.last()));
        assert(escaped(whole) == doubled(c) + escaped(s));
    }
}

/// Escaped text between single quotes is read back as the text itself: no
/// single quote in it can end the literal, whatever the text holds.
pub proof fn lemma_escaped_reads_back(s: Seq<char>)
    ensures
        read_literal(escaped(s)) == Some(s),
    decreases s.len(),
{
    if s.len() == 0 {
    } else {
        let c = s[0];
        let rest = s.skip(1);
        assert(s == seq![c] + rest);
        lemma_escaped_front(c, rest);
        lemma_escaped_reads_back(rest);
        let body = escaped(s);
        assert(body == doubled(c) + escaped(rest));
        if c == '\'' {
            assert(body[0] == '\'' && body[1] == '\'');
            assert(body.skip(2) == escaped(rest));
            assert(seq!['\''] + rest == s);
        } else {
            assert(body[0] == c);
            assert(body.skip(1) == escaped(rest));
        }
    }
}

/// Returns `text` with every single quote doubled.
pub fn escape_single_quotes(text: &str) -> (r: String)
    ensures
        r@ == escaped(text@),
        read_literal(r@) == Some(text@),
{
    let chars = chars_of(text);
    let mut r = String::new();
    let mut i: usize = 0;
    while i < chars.len()
        invariant
            i <= chars.len(),
            r@ == escaped(chars@.take(i as int)),
        decreases chars.len() - i,
    {
        let c = chars[i];
        proof {
            assert(chars@.take(i + 1).drop_last() == chars@.take(i as int));
            assert(chars@.take(i + 1).last() == c);
        }
        if c == '\'' {
            push_char(&mut r, '\'');
            push_char(&mut r, '\'');
        } else {
            push_char(&mut r, c);
        }
        assert(r@ == escaped(chars@.take(i as int)) + doubled(c));
        i += 1;
    }
    proof {
        assert(chars@.take(chars.len() as int) == chars@);
        lemma_escaped_reads_back(text@);
    }
    r
}

} // verus!
