use examuq_client::ipv4::parse_ipv4;
use examuq_client::text::{lowercase, replace_text, trimmed, without_leading, without_trailing};

fn chars(s: &str) -> Vec<char> {
    s.chars().collect()
}

#[test]
fn trim_matches_unicode_white_space() {
    for s in ["  a b  ", "\u{3000}x\u{00A0}", "\t\n", "", "x", "\u{200B}x"] {
        assert_eq!(trimmed(s), s.trim());
    }
}

#[test]
fn lowercase_is_ascii_only() {
    assert_eq!(lowercase(&chars("AbÇ-Z")), chars("abÇ-z"));
}

#[test]
fn replace_is_left_to_right() {
    assert_eq!(replace_text(&chars("aaa"), &chars("aa"), &chars("b")), chars("ba"));
    assert_eq!(replace_text(&chars("x{c}y{c}"), &chars("{c}"), &chars("Z")), chars("xZyZ"));
}

#[test]
fn trims_of_one_char() {
    assert_eq!(without_trailing(&chars("a//"), '/'), chars("a"));
    assert_eq!(without_leading(&chars("//a/"), '/'), chars("a/"));
}

#[test]
fn ipv4_dot_decimal() {
    let cases: [(&str, Option<(u8, u8, u8, u8)>); 12] = [
        ("10.0.0.1", Some((10, 0, 0, 1))),
        ("255.255.255.255", Some((255, 255, 255, 255))),
        ("0.0.0.0", Some((0, 0, 0, 0))),
        ("256.1.1.1", None),
        ("01.2.3.4", None),
        ("00.1.1.1", None),
        ("1.2.3", None),
        ("1.2.3.4.", None),
        ("1..2.3", None),
        ("a.b.c.d", None),
        ("1.2.3.4 ", None),
        ("1234.1.1.1", None),
    ];
    for (s, expected) in cases {
        assert_eq!(parse_ipv4(&chars(s)), expected, "{s}");
    }
}
