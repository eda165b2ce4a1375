use rust_lib::text::{encode_text, is_nul_free, render_decimal, scan_len};

#[test]
fn decimal_of_small_numbers() {
    assert_eq!(render_decimal(0), "0");
    assert_eq!(render_decimal(7), "7");
    assert_eq!(render_decimal(9), "9");
    assert_eq!(render_decimal(10), "10");
    assert_eq!(render_decimal(42), "42");
    assert_eq!(render_decimal(1000), "1000");
    assert_eq!(render_decimal(1203405), "1203405");
}

#[test]
fn decimal_of_negative_numbers() {
    assert_eq!(render_decimal(-1), "-1");
    assert_eq!(render_decimal(-10), "-10");
    assert_eq!(render_decimal(-987), "-987");
}

#[test]
fn decimal_of_the_ends_of_the_range() {
    assert_eq!(render_decimal(i32::MAX), "2147483647");
    assert_eq!(render_decimal(i32::MIN), "-2147483648");
}

#[test]
fn decimal_agrees_with_display() {
    for n in [0, 1, -1, 99, 100, 101, -100, 65535, -65536, 123456789, i32::MAX, i32::MIN] {
        assert_eq!(render_decimal(n), format!("{}", n));
    }
}

#[test]
fn encoded_text_ends_with_one_terminator() {
    assert_eq!(encode_text("Hi"), vec![72, 105, 0]);
    assert_eq!(encode_text(""), vec![0]);
}

#[test]
fn encoded_text_holds_utf8() {
    assert_eq!(encode_text("\u{e9}"), vec![0xC3, 0xA9, 0]);
    assert_eq!(encode_text("\u{4e16}"), vec![0xE4, 0xB8, 0x96, 0]);
    assert_eq!(encode_text("\u{1F600}"), vec![0xF0, 0x9F, 0x98, 0x80, 0]);
}

#[test]
fn scan_stops_at_the_first_terminator() {
    assert_eq!(scan_len(&[72, 105, 0]), 2);
    assert_eq!(scan_len(&[72, 0, 105, 0]), 1);
    assert_eq!(scan_len(&[0]), 0);
}

#[test]
fn scan_of_an_open_text_runs_to_its_end() {
    assert_eq!(scan_len(&[72, 105]), 2);
    assert_eq!(scan_len(&[]), 0);
}

#[test]
fn scan_reads_back_what_was_encoded() {
    for content in ["", "a", "Hello Rust FFI", "h\u{e9}llo w\u{f6}rld", "\u{4e16}\u{754c}"] {
        let stored = encode_text(content);
        let len = scan_len(&stored);
        assert_eq!(&stored[..len], content.as_bytes());
        assert_eq!(stored.len(), len + 1);
    }
}

#[test]
fn text_with_a_nul_is_not_nul_free() {
    assert!(!is_nul_free("a\0b"));
    assert!(!is_nul_free("\0"));
    assert!(!is_nul_free("end\0"));
}

#[test]
fn text_without_a_nul_is_nul_free() {
    assert!(is_nul_free(""));
    assert!(is_nul_free("Hello Rust FFI"));
    assert!(is_nul_free("h\u{e9}llo \u{4e16}\u{754c} \u{1F600}"));
}
