use peach::framer::LineFramer;

#[test]
fn line_split_across_two_reads() {
    let mut f = LineFramer::new();
    assert!(!f.feed(b"hel"));
    assert!(f.feed(b"lo\n"));
    let (text, count) = f.take_line();
    assert_eq!(text, "hello\n");
    assert_eq!(count, 6);
}

#[test]
fn single_read_line() {
    let mut f = LineFramer::new();
    assert!(f.feed(b"hi\n"));
    let (text, count) = f.take_line();
    assert_eq!(text, "hi\n");
    assert_eq!(count, 3);
}

#[test]
fn newline_carriage_return_boundary() {
    let mut f = LineFramer::new();
    assert!(f.feed(b"hi\n\r"));
    let (text, count) = f.take_line();
    assert_eq!(text, "hi\n\r");
    assert_eq!(count, 4);
}

#[test]
fn carriage_return_newline_is_one_line() {
    let mut f = LineFramer::new();
    assert!(f.feed(b"hi\r\n"));
    let (text, count) = f.take_line();
    assert_eq!(text, "hi\r\n");
    assert_eq!(count, 4);
}

#[test]
fn zero_read_returns_count_zero() {
    let mut f = LineFramer::new();
    assert!(f.feed(b""));
    let (text, count) = f.take_line();
    assert_eq!(text, "");
    assert_eq!(count, 0);
}

#[test]
fn zero_read_after_partial_content_still_counts_zero() {
    let mut f = LineFramer::new();
    assert!(!f.feed(b"hel"));
    assert!(f.feed(b""));
    let (text, count) = f.take_line();
    assert_eq!(text, "hel");
    assert_eq!(count, 0);
}

#[test]
fn keeps_reading_until_boundary() {
    let mut f = LineFramer::new();
    assert!(!f.feed(b"a"));
    assert!(!f.feed(b"b"));
    assert!(!f.feed(b"c"));
    assert!(f.feed(b"\n"));
    let (text, count) = f.take_line();
    assert_eq!(text, "abc\n");
    assert_eq!(count, 4);
}

#[test]
fn undecodable_bytes_are_replaced_not_fatal() {
    let mut f = LineFramer::new();
    assert!(f.feed(&[0xff, 0xfe, b'o', b'k', b'\n']));
    let (text, count) = f.take_line();
    assert_eq!(text, "\u{fffd}\u{fffd}ok\n");
    assert_eq!(count, 5);
}

#[test]
fn framer_resets_between_lines() {
    let mut f = LineFramer::new();
    assert!(f.feed(b"one\n"));
    let (text, count) = f.take_line();
    assert_eq!(text, "one\n");
    assert_eq!(count, 4);
    assert!(f.feed(b"two\n"));
    let (text, count) = f.take_line();
    assert_eq!(text, "two\n");
    assert_eq!(count, 4);
}
