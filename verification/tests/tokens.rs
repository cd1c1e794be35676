use reverse_proxy::tokens::{blank, bytes_eq, split_tokens, trim};

fn list(items: &[&str]) -> Vec<Vec<u8>> {
    items.iter().map(|s| s.as_bytes().to_vec()).collect()
}

#[test]
fn split_tokens_of_plain_list() {
    assert_eq!(split_tokens(b"keep-alive, X-Custom"), list(&["keep-alive", "X-Custom"]));
    assert_eq!(split_tokens(b"a,b,c"), list(&["a", "b", "c"]));
}

#[test]
fn split_tokens_of_single_token() {
    assert_eq!(split_tokens(b"close"), list(&["close"]));
    assert_eq!(split_tokens(b"  close\t"), list(&["close"]));
}

#[test]
fn split_tokens_of_empty_value_is_one_empty_token() {
    assert_eq!(split_tokens(b""), list(&[""]));
    assert_eq!(split_tokens(b"   "), list(&[""]));
}

#[test]
fn split_tokens_keeps_empty_pieces() {
    assert_eq!(split_tokens(b","), list(&["", ""]));
    assert_eq!(split_tokens(b"a,,b"), list(&["a", "", "b"]));
    assert_eq!(split_tokens(b"a, ,b,"), list(&["a", "", "b", ""]));
    assert_eq!(split_tokens(b",a"), list(&["", "a"]));
}

#[test]
fn split_tokens_keeps_blanks_inside_a_token() {
    assert_eq!(split_tokens(b" a b , c\td "), list(&["a b", "c\td"]));
}

#[test]
fn trim_removes_blanks_at_both_ends_only() {
    assert_eq!(trim(b""), b"".to_vec());
    assert_eq!(trim(b"abc"), b"abc".to_vec());
    assert_eq!(trim(b"  abc"), b"abc".to_vec());
    assert_eq!(trim(b"abc \t"), b"abc".to_vec());
    assert_eq!(trim(b"\r\n a  b \x0b\x0c"), b"a  b".to_vec());
    assert_eq!(trim(b" \t "), b"".to_vec());
    assert_eq!(trim(b"\x00a\x7f"), b"\x00a\x7f".to_vec());
}

#[test]
fn trim_agrees_with_str_trim_on_ascii() {
    for s in ["", " ", "a", " a", "a ", " a b ", "\t\n\r\x0b\x0c x \x0c\x0b\r\n\t", "x\u{1f}"] {
        assert_eq!(trim(s.as_bytes()), s.trim().as_bytes().to_vec(), "{:?}", s);
    }
}

#[test]
fn blank_is_space_and_the_five_controls() {
    for b in 0u8..=255 {
        let expected = b == 32 || (9..=13).contains(&b);
        assert_eq!(blank(b), expected, "byte {}", b);
    }
}

#[test]
fn bytes_eq_compares_content() {
    assert!(bytes_eq(b"", b""));
    assert!(bytes_eq(b"trailers", b"trailers"));
    assert!(!bytes_eq(b"trailers", b"Trailers"));
    assert!(!bytes_eq(b"trailers", b"trailer"));
    assert!(!bytes_eq(b"", b"a"));
    assert!(!bytes_eq(b"ab", b"ac"));
}
