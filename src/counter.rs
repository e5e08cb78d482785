//! The single forward scan that counts lines, words and bytes.

use vstd::prelude::*;

verus! {

/// The bytes that separate words: space, horizontal tab, line feed,
/// vertical tab, form feed and carriage return.
pub open spec fn is_space(b: u8) -> bool {
    b == 0x20u8 || b == 0x09u8 || b == 0x0Au8 || b == 0x0Bu8 || b == 0x0Cu8 || b == 0x0Du8
}

/// Number of line feed bytes in `s`.
pub open spec fn line_count(s: Seq<u8>) -> nat
    decreases s.len(),
{
    if s.len() == 0 {
        0
    } else {
        line_count(s.drop_last()) + if s.last() == 0x0Au8 { 1nat } else { 0nat }
    }
}

/// Whether a word starts at position `i` of `s`: the byte there is not a
/// separator and either nothing or a separator stands before it.
pub open spec fn starts_word(s: Seq<u8>, i: int) -> bool {
    0 <= i < s.len() && !is_space(s[i]) && (i == 0 || is_space(s[i - 1]))
}

/// Number of words in `s`, a word being a maximal non-empty run of bytes
/// that are not separators; counted by the positions where one starts.
pub open spec fn word_count(s: Seq<u8>) -> nat
    decreases s.len(),
{
    if s.len() == 0 {
        0
    } else {
        word_count(s.drop_last()) + if starts_word(s, s.len() - 1) { 1nat } else { 0nat }
    }
}

/// The three counts of one input.
#[derive(Clone, Copy, Debug, PartialEq, Eq, Structural)]
pub struct Counts {
    pub lines: usize,
    pub words: usize,
    pub chars: usize,
}

/// What the counts of the bytes `s` are.
pub open spec fn counts_of(s: Seq<u8>) -> (nat, nat, nat) {
    (line_count(s), word_count(s), s.len())
}

impl Counts {
    /// The counts as a triple (lines, words, bytes).
    pub open spec fn triple(self) -> (nat, nat, nat) {
        (self.lines as nat, self.words as nat, self.chars as nat)
    }
}

/// Whether `b` separates words.
pub fn is_space_byte(b: u8) -> (r: bool)
    ensures
        r == is_space(b),
{
    b == 0x20u8 || b == 0x09u8 || b == 0x0Au8 || b == 0x0Bu8 || b == 0x0Cu8 || b == 0x0Du8
}

proof fn lemma_line_count_le(s: Seq<u8>)
    ensures
        line_count(s) <= s.len(),
    decreases s.len(),
{
    if s.len() > 0 {
        lemma_line_count_le(s.drop_last());
    }
}

proof fn lemma_word_count_le(s: Seq<u8>)
    ensures
        word_count(s) <= s.len(),
    decreases s.len(),
{
    if s.len() > 0 {
        lemma_word_count_le(s.drop_last());
    }
}

/// Counts the lines, words and bytes of `bytes` in one pass.
///
/// A line is counted for each line feed byte. A word is counted when the
/// run of non-separator bytes it forms is closed, by a separator or by the
/// end of the input; an empty input, or one of separators alone, holds no
/// word.
pub fn count(bytes: &[u8]) -> (r: Counts)
    ensures
        r.triple() == counts_of(bytes@),
{
    let mut chars: usize = 0;
    let mut lines: usize = 0;
    let mut words: usize = 0;
    let mut in_word = false;
    let mut i: usize = 0;
    while i < bytes.len()
        invariant
            i <= bytes@.len(),
            chars == i,
            lines == line_count(bytes@.subrange(0, i as int)),
            words + (if in_word { 1nat } else { 0nat }) == word_count(bytes@.subrange(0, i as int)),
            in_word == (i > 0 && !is_space(bytes@[i - 1])),
        decreases bytes@.len() - i,
    {
        let b = bytes[i];
        let ghost prefix = bytes@.subrange(0, i as int);
        let ghost next = bytes@.subrange(0, i + 1);
        proof {
            assert(next.drop_last() =~= prefix);
            lemma_line_count_le(prefix);
            lemma_word_count_le(prefix);
        }
        chars += 1;
        if is_space_byte(b) {
            if in_word {
                in_word = false;
                words += 1;
            }
        } else {
            in_word = true;
        }
        if b == 0x0Au8 {
            lines += 1;
        }
        i += 1;
    }
    proof {
        assert(bytes@.subrange(0, i as int) =~= bytes@);
        lemma_word_count_le(bytes@);
    }
    if in_word {
        words += 1;
    }
    Counts { lines, words, chars }
}

} // verus!
