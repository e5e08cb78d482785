use wc::counter::{count, is_space_byte, Counts};

fn counts(lines: usize, words: usize, chars: usize) -> Counts {
    Counts { lines, words, chars }
}

#[test]
fn three_words_one_line() {
    assert_eq!(count(b"a b c\n"), counts(1, 3, 6));
}

#[test]
fn empty_input_has_no_word() {
    assert_eq!(count(b""), counts(0, 0, 0));
}

#[test]
fn separators_only_have_no_word() {
    assert_eq!(count(b"   \n\n  "), counts(2, 0, 7));
    assert_eq!(count(b"\t\r\x0b\x0c \n"), counts(1, 0, 6));
}

#[test]
fn one_run_is_one_word() {
    assert_eq!(count(b"x"), counts(0, 1, 1));
    assert_eq!(count(b"hello,world!"), counts(0, 1, 12));
}

#[test]
fn counting_twice_gives_the_same_counts() {
    let data = b"one two\nthree\n\n four ";
    let first = count(data);
    let second = count(data);
    assert_eq!(first, second);
    assert_eq!(first, counts(3, 4, 21));
}

#[test]
fn leading_and_trailing_separators() {
    assert_eq!(count(b"  a"), counts(0, 1, 3));
    assert_eq!(count(b"a  "), counts(0, 1, 3));
    assert_eq!(count(b"\n\nab\tcd\r\nef"), counts(3, 3, 11));
}

#[test]
fn every_separator_splits_words() {
    for sep in [b' ', b'\t', b'\n', 0x0b, 0x0c, b'\r'] {
        let data = [b'a', sep, b'b'];
        assert_eq!(count(&data).words, 2);
    }
    assert_eq!(count(b"a\x00b").words, 1);
}

#[test]
fn separator_bytes() {
    for b in 0u8..=255 {
        let expected = matches!(b, b' ' | b'\t' | b'\n' | 0x0b | 0x0c | b'\r');
        assert_eq!(is_space_byte(b), expected);
    }
}

#[test]
fn line_count_is_line_feeds_only() {
    assert_eq!(count(b"a\rb\r").lines, 0);
    assert_eq!(count(b"no newline at end\nlast").lines, 1);
}
