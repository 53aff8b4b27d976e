use web_api::text::{concat_str, is_white_char, trim};

#[test]
fn trim_removes_white_space_at_both_ends() {
    assert_eq!(trim("  alice1 \t\n"), "alice1");
    assert_eq!(trim("a b"), "a b");
    assert_eq!(trim(""), "");
    assert_eq!(trim(" \u{3000} \u{a0}"), "");
    assert_eq!(trim("\u{2003}名前\u{205f}"), "名前");
}

#[test]
fn trim_agrees_with_std() {
    let samples = [
        "", " ", "x", " x ", "\u{85}x\u{85}", "\u{180e}x", "x\u{200b}", "\u{1680}\u{2028}\u{2029}y z\u{202f}",
        "\r\n\u{b}\u{c}text\u{2000}\u{200a}",
    ];
    for s in samples {
        assert_eq!(trim(s), s.trim(), "{:?}", s);
    }
}

#[test]
fn white_space_matches_std() {
    for u in 0u32..0x3100 {
        if let Some(c) = char::from_u32(u) {
            assert_eq!(is_white_char(c), c.is_whitespace(), "{:x}", u);
        }
    }
}

#[test]
fn concatenation() {
    assert_eq!(concat_str("todo not found: ", "\"x\""), "todo not found: \"x\"");
}
