use ruvix_kernel::uart::{uart_putc, uart_puts, CR, LF};

#[test]
fn putc_appends_one_byte() {
    let mut out = vec![1u8];
    uart_putc(&mut out, b'x');
    assert_eq!(out, vec![1u8, b'x']);
}

#[test]
fn puts_inserts_cr_before_lf() {
    let mut out = Vec::new();
    uart_puts(&mut out, "a\nb\n");
    assert_eq!(out, b"a\r\nb\r\n".to_vec());
}

#[test]
fn puts_keeps_earlier_bytes() {
    let mut out = vec![7u8, 8];
    uart_puts(&mut out, "ok");
    assert_eq!(out, vec![7u8, 8, b'o', b'k']);
}

#[test]
fn puts_empty_string_writes_nothing() {
    let mut out = vec![3u8];
    uart_puts(&mut out, "");
    assert_eq!(out, vec![3u8]);
}

#[test]
fn puts_without_line_feed_is_unchanged() {
    let mut out = Vec::new();
    uart_puts(&mut out, "no newline here\r");
    assert_eq!(out, b"no newline here\r".to_vec());
}

#[test]
fn puts_existing_cr_is_kept() {
    let mut out = Vec::new();
    uart_puts(&mut out, "x\r\n");
    assert_eq!(out, b"x\r\r\n".to_vec());
}

#[test]
fn puts_utf8_bytes_pass_through() {
    let mut out = Vec::new();
    uart_puts(&mut out, "\u{b7}\n");
    assert_eq!(out, vec![0xC2u8, 0xB7, CR, LF]);
}

#[test]
fn puts_two_calls_equal_one_concatenated_call() {
    let mut split = Vec::new();
    uart_puts(&mut split, "ab\n");
    uart_puts(&mut split, "\ncd");
    let mut whole = Vec::new();
    uart_puts(&mut whole, "ab\n\ncd");
    assert_eq!(split, whole);
}

#[test]
fn puts_length_grows_by_line_feeds() {
    let s = "one\ntwo\nthree\n";
    let mut out = Vec::new();
    uart_puts(&mut out, s);
    assert_eq!(out.len(), s.len() + 3);
}

#[test]
fn puts_every_lf_follows_cr() {
    let mut out = Vec::new();
    uart_puts(&mut out, "\n\n a \n\r\n");
    for i in 0..out.len() {
        if out[i] == LF {
            assert!(i > 0 && out[i - 1] == CR);
        }
    }
}
