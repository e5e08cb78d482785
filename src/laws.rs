//! Facts about the counts and the report line that hold for every input.

use vstd::prelude::*;
use crate::counter::{counts_of, is_space, line_count, starts_word, word_count};
use crate::report::{field, output};

verus! {

/// A non-empty input without any separator is one word on no line, and
/// its byte count is its length.
pub proof fn lemma_one_word(s: Seq<u8>)
    requires
        s.len() > 0,
        forall|i: int| 0 <= i < s.len() ==> !is_space(#[trigger] s[i]),
    ensures
        counts_of(s) == (0nat, 1nat, s.len()),
    decreases s.len(),
{
    if s.len() > 1 {
        let p = s.drop_last();
        assert forall|i: int| 0 <= i < p.len() implies !is_space(#[trigger] p[i]) by {
            assert(p[i] == s[i]);
        }
        lemma_one_word(p);
        assert(!is_space(s[s.len() - 2]));
        assert(!is_space(s.last()));
    } else {
        let p = s.drop_last();
        assert(p.len() == 0);
        assert(line_count(p) == 0);
        assert(word_count(p) == 0);
        assert(!is_space(s.last()));
    }
}

/// An input of separators alone holds no word; its line count is its
/// number of line feeds and its byte count its length.
pub proof fn lemma_only_spaces(s: Seq<u8>)
    requires
        forall|i: int| 0 <= i < s.len() ==> is_space(#[trigger] s[i]),
    ensures
        counts_of(s) == (line_count(s), 0nat, s.len()),
        word_count(s) == 0,
    decreases s.len(),
{
    if s.len() > 0 {
        let p = s.drop_last();
        assert forall|i: int| 0 <= i < p.len() implies is_space(#[trigger] p[i]) by {
            assert(p[i] == s[i]);
        }
        lemma_only_spaces(p);
        assert(!starts_word(s, s.len() - 1));
    }
}

/// Counting the same bytes twice gives the same three counts.
pub proof fn lemma_count_repeatable(a: Seq<u8>, b: Seq<u8>)
    requires
        a == b,
    ensures
        counts_of(a) == counts_of(b),
{
}

/// With no flag set, an invocation prints what it prints with all three
/// flags set.
pub proof fn lemma_default_shows_all(path: Seq<char>, bytes: Seq<u8>)
    ensures
        output(false, false, false, path, bytes) == output(true, true, true, path, bytes),
{
}

/// Whichever flags are set, the shown counts stand in the one order
/// lines, words, bytes, each with a tab after it, between the leading tab
/// and the path.
pub proof fn lemma_fixed_order(
    lines: bool,
    words: bool,
    chars: bool,
    path: Seq<char>,
    bytes: Seq<u8>,
)
    requires
        lines || words || chars,
    ensures
        output(lines, words, chars, path, bytes) == seq!['\t'] + field(lines, line_count(bytes))
            + field(words, word_count(bytes)) + field(chars, bytes.len()) + path + seq!['\n'],
{
}

} // verus!
