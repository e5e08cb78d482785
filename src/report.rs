//! The line that reports the counts of one file.

use vstd::prelude::*;
use crate::counter::{count, counts_of, Counts};
use crate::options::Args;

verus! {

/// The decimal digit characters, indexed by their value.
pub open spec fn digits() -> Seq<char> {
    seq!['0', '1', '2', '3', '4', '5', '6', '7', '8', '9']
}

/// The decimal representation of `n`, without sign or leading zeros.
pub open spec fn decimal(n: nat) -> Seq<char>
    decreases n,
{
    if n < 10 {
        seq![digits()[n as int]]
    } else {
        decimal(n / 10).push(digits()[(n % 10) as int])
    }
}

/// One shown count: its decimal form and a tab; nothing where it is hidden.
pub open spec fn field(shown: bool, n: nat) -> Seq<char> {
    if shown {
        decimal(n).push('\t')
    } else {
        Seq::empty()
    }
}

/// The report line for the counts `c` (lines, words, bytes), showing those
/// whose flag is set: a tab, the shown counts in the order lines, words, bytes,
/// each followed by a tab, then the path and a line feed.
pub open spec fn report_line(
    lines: bool,
    words: bool,
    chars: bool,
    path: Seq<char>,
    c: (nat, nat, nat),
) -> Seq<char> {
    seq!['\t'] + field(lines, c.0) + field(words, c.1) + field(chars, c.2) + path + seq!['\n']
}

fn digit_str(d: usize) -> (r: &'static str)
    requires
        d < 10,
    ensures
        r@ == seq![digits()[d as int]],
{
    if d == 0 {
        proof { reveal_strlit("0"); }
        "0"
    } else if d == 1 {
        proof { reveal_strlit("1"); }
        "1"
    } else if d == 2 {
        proof { reveal_strlit("2"); }
        "2"
    } else if d == 3 {
        proof { reveal_strlit("3"); }
        "3"
    } else if d == 4 {
        proof { reveal_strlit("4"); }
        "4"
    } else if d == 5 {
        proof { reveal_strlit("5"); }
        "5"
    } else if d == 6 {
        proof { reveal_strlit("6"); }
        "6"
    } else if d == 7 {
        proof { reveal_strlit("7"); }
        "7"
    } else if d == 8 {
        proof { reveal_strlit("8"); }
        "8"
    } else {
        proof { reveal_strlit("9"); }
        "9"
    }
}

/// Appends the decimal form of `n` to `out`.
pub fn push_decimal(out: &mut String, n: usize)
    ensures
        final(out)@ == old(out)@ + decimal(n as nat),
    decreases n,
{
    if n >= 10 {
        push_decimal(out, n / 10);
    }
    out.append(digit_str(n % 10));
    proof {
        assert(out@ =~= old(out)@ + decimal(n as nat));
    }
}

/// What one invocation prints for a file holding `bytes`: the report line
/// of its counts under the options in effect, all three counts where no
/// flag is set.
pub open spec fn output(
    lines: bool,
    words: bool,
    chars: bool,
    path: Seq<char>,
    bytes: Seq<u8>,
) -> Seq<char> {
    if !lines && !words && !chars {
        report_line(true, true, true, path, counts_of(bytes))
    } else {
        report_line(lines, words, chars, path, counts_of(bytes))
    }
}

/// Renders the report line of `counts` under the flags of `args`, which
/// are taken as they stand.
pub fn render(args: &Args, counts: &Counts) -> (r: String)
    ensures
        r@ == report_line(args.lines, args.words, args.chars, args.path@, counts.triple()),
{
    let mut out = String::new();
    out.append("\t");
    proof {
        reveal_strlit("\t");
    }
    let ghost start = out@;
    if args.lines {
        push_decimal(&mut out, counts.lines);
        out.append("\t");
    }
    let ghost after_lines = out@;
    assert(after_lines =~= start + field(args.lines, counts.lines as nat));
    if args.words {
        push_decimal(&mut out, counts.words);
        out.append("\t");
    }
    let ghost after_words = out@;
    assert(after_words =~= after_lines + field(args.words, counts.words as nat));
    if args.chars {
        push_decimal(&mut out, counts.chars);
        out.append("\t");
    }
    let ghost after_chars = out@;
    assert(after_chars =~= after_words + field(args.chars, counts.chars as nat));
    out.append(args.path.as_str());
    out.append("\n");
    proof {
        reveal_strlit("\n");
        assert(out@ =~= report_line(
            args.lines,
            args.words,
            args.chars,
            args.path@,
            counts.triple(),
        ));
    }
    out
}

/// Counts `bytes`, the contents of the file at `args.path`, and renders the
/// report line under the options in effect.
pub fn wc(bytes: &[u8], args: Args) -> (r: String)
    ensures
        r@ == output(args.lines, args.words, args.chars, args.path@, bytes@),
{
    let counts = count(bytes);
    let shown = args.effective();
    render(&shown, &counts)
}

} // verus!
