use imgdemux::netpbm::{parse_uint, read_value, Lines};
use imgdemux::source::Source;

fn lines_over(bytes: &[u8]) -> Lines {
    Lines { handle: Source::new(bytes.to_vec()) }
}

#[test]
fn token_split_on_spaces() {
    let mut r = lines_over(b"ab cd  ef");
    assert_eq!(r.next(), Some(b"ab".to_vec()));
    assert_eq!(r.next(), Some(b"cd".to_vec()));
    // the second space delimits an empty token, which ends the sequence
    assert_eq!(r.next(), None);
}

#[test]
fn token_ends_at_end_of_stream() {
    let mut r = lines_over(b"abc");
    assert_eq!(r.next(), Some(b"abc".to_vec()));
    assert_eq!(r.next(), None);
    assert_eq!(r.next(), None);
}

#[test]
fn empty_stream_has_no_tokens() {
    let mut r = lines_over(b"");
    assert_eq!(r.next(), None);
}

#[test]
fn lf_cr_pair_consumed_as_one_terminator() {
    let mut r = lines_over(b"ab\n\rcd");
    assert_eq!(r.next(), Some(b"ab".to_vec()));
    assert_eq!(r.handle.pos, 4);
    assert_eq!(r.next(), Some(b"cd".to_vec()));
}

#[test]
fn cr_lf_pair_consumed_as_one_terminator() {
    let mut r = lines_over(b"ab\r\ncd");
    assert_eq!(r.next(), Some(b"ab".to_vec()));
    assert_eq!(r.handle.pos, 4);
    assert_eq!(r.next(), Some(b"cd".to_vec()));
}

#[test]
fn lookahead_byte_is_pushed_back() {
    let mut r = lines_over(b"ab\nx");
    assert_eq!(r.next(), Some(b"ab".to_vec()));
    // the lookahead read of `x` must rewind: `x` starts the next token
    assert_eq!(r.handle.pos, 3);
    assert_eq!(r.next(), Some(b"x".to_vec()));
}

#[test]
fn two_line_feeds_end_the_sequence() {
    let mut r = lines_over(b"ab\n\ncd");
    assert_eq!(r.next(), Some(b"ab".to_vec()));
    assert_eq!(r.next(), None);
}

#[test]
fn tab_and_form_feed_delimit_tokens() {
    let mut r = lines_over(b"ab\tcd\x0cef");
    assert_eq!(r.next(), Some(b"ab".to_vec()));
    assert_eq!(r.next(), Some(b"cd".to_vec()));
    assert_eq!(r.next(), Some(b"ef".to_vec()));
}

#[test]
fn comment_token_returned_verbatim_by_reader() {
    // the reader has no concept of comments
    let mut r = lines_over(b"#foo\nbar");
    assert_eq!(r.next(), Some(b"#foo".to_vec()));
    assert_eq!(r.next(), Some(b"bar".to_vec()));
}

#[test]
fn read_value_skips_comment_tokens() {
    let mut r = lines_over(b"#foo\n#baz\n42\n");
    assert_eq!(read_value(&mut r), Some(b"42".to_vec()));
}

#[test]
fn read_value_rejects_non_ascii() {
    let mut r = lines_over(&[0xC3, 0xA9, b'\n']);
    assert_eq!(read_value(&mut r), None);
}

#[test]
fn parse_uint_plain_digits() {
    assert_eq!(parse_uint(&b"123".to_vec(), u64::MAX), Some(123));
    assert_eq!(parse_uint(&b"007".to_vec(), u64::MAX), Some(7));
    assert_eq!(parse_uint(&b"0".to_vec(), u64::MAX), Some(0));
}

#[test]
fn parse_uint_accepts_one_leading_plus() {
    assert_eq!(parse_uint(&b"+5".to_vec(), u64::MAX), Some(5));
    assert_eq!(parse_uint(&b"+".to_vec(), u64::MAX), None);
    assert_eq!(parse_uint(&b"++5".to_vec(), u64::MAX), None);
}

#[test]
fn parse_uint_rejects_malformed_tokens() {
    assert_eq!(parse_uint(&b"".to_vec(), u64::MAX), None);
    assert_eq!(parse_uint(&b"5a".to_vec(), u64::MAX), None);
    assert_eq!(parse_uint(&b"-5".to_vec(), u64::MAX), None);
    assert_eq!(parse_uint(&b" 5".to_vec(), u64::MAX), None);
}

#[test]
fn parse_uint_respects_bounds() {
    assert_eq!(
        parse_uint(&b"18446744073709551615".to_vec(), u64::MAX),
        Some(u64::MAX)
    );
    assert_eq!(parse_uint(&b"18446744073709551616".to_vec(), u64::MAX), None);
    assert_eq!(parse_uint(&b"256".to_vec(), 255), None);
    assert_eq!(parse_uint(&b"255".to_vec(), 255), Some(255));
}
