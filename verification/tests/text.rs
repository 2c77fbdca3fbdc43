use selection_monitor::text::{is_blank_text, trimmed_len};

#[test]
fn empty_text_is_blank() {
    assert!(is_blank_text(""));
    assert_eq!(trimmed_len(""), 0);
}

#[test]
fn whitespace_only_is_blank() {
    assert!(is_blank_text(" "));
    assert!(is_blank_text(" \t\r\n "));
    assert!(is_blank_text("\u{a0}\u{2003}\u{3000}"));
    assert_eq!(trimmed_len(" \t\r\n "), 0);
}

#[test]
fn text_with_a_letter_is_not_blank() {
    assert!(!is_blank_text("a"));
    assert!(!is_blank_text("  a  "));
    assert!(!is_blank_text("\n.\n"));
}

#[test]
fn trimmed_len_leaves_out_both_ends() {
    assert_eq!(trimmed_len("abc"), 3);
    assert_eq!(trimmed_len("  abc"), 3);
    assert_eq!(trimmed_len("abc \n"), 3);
    assert_eq!(trimmed_len("\t abc \n"), 3);
}

#[test]
fn trimmed_len_keeps_inner_whitespace() {
    assert_eq!(trimmed_len(" a b "), 3);
    assert_eq!(trimmed_len("a  \t  b"), 7);
}

#[test]
fn trimmed_len_counts_characters_not_bytes() {
    assert_eq!("\u{e9}\u{e9}".len(), 4);
    assert_eq!(trimmed_len("\u{e9}\u{e9}"), 2);
    assert_eq!(trimmed_len(" \u{4f60}\u{597d}\u{5417} "), 3);
}

#[test]
fn zero_width_space_is_not_whitespace() {
    assert!(!is_blank_text("\u{200b}"));
    assert_eq!(trimmed_len(" \u{200b} "), 1);
}
