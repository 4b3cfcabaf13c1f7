use tvoice::text::{is_whitespace, trim};

#[test]
fn whitespace_agrees_with_std_on_every_char() {
    for u in 0u32..=0x10FFFF {
        if let Some(c) = char::from_u32(u) {
            assert_eq!(is_whitespace(c), c.is_whitespace(), "U+{:04X}", u);
        }
    }
}

#[test]
fn trim_agrees_with_std() {
    let samples = [
        "",
        " ",
        "abc",
        "  abc  ",
        "\t\n a b \r\n",
        "\u{2003}x\u{3000}",
        "\u{85}\u{a0}",
        "é ü",
        " \u{200b}zero-width\u{200b} ",
        "中文 ",
    ];
    for s in samples {
        assert_eq!(trim(s), s.trim(), "{:?}", s);
    }
}

#[test]
fn trim_is_idempotent_on_samples() {
    for s in [" a ", "\n\nb\t", "c"] {
        assert_eq!(trim(trim(s)), trim(s));
    }
}
