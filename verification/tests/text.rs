use macgen::text::{is_whitespace, same_text, trim};

#[test]
fn same_text_compares_character_by_character() {
    assert!(same_text("", ""));
    assert!(same_text("02:aa:bb:cc:dd:ee", "02:aa:bb:cc:dd:ee"));
    assert!(!same_text("02:aa:bb:cc:dd:ee", "02:AA:BB:CC:DD:EE"));
    assert!(!same_text("02:aa:bb:cc:dd:ee", "02aabbccddee"));
    assert!(!same_text("02:aa:bb:cc:dd:ee", "02:aa:bb:cc:dd:e"));
    assert!(!same_text("a", ""));
    assert!(same_text("h\u{e9}llo \u{1f600}", "h\u{e9}llo \u{1f600}"));
    assert!(!same_text("h\u{e9}llo", "hello"));
}

#[test]
fn is_whitespace_agrees_with_std_on_every_character() {
    for code in 0..=0x10ffffu32 {
        if let Some(c) = char::from_u32(code) {
            assert_eq!(is_whitespace(c), c.is_whitespace(), "U+{:04X}", code);
        }
    }
}

#[test]
fn trim_drops_the_white_space_around_a_line() {
    assert_eq!(trim("home-wifi\n"), "home-wifi");
    assert_eq!(trim("  alice \r\n"), "alice");
    assert_eq!(trim("\t two words \t"), "two words");
    assert_eq!(trim(""), "");
    assert_eq!(trim(" \n\t "), "");
    assert_eq!(trim("x"), "x");
    assert_eq!(trim("\u{3000}caf\u{e9}\u{a0}"), "caf\u{e9}");
}

#[test]
fn trim_agrees_with_std_trim() {
    let samples = [
        "",
        " ",
        "a",
        " a",
        "a ",
        " a b ",
        "\n\n",
        "\u{2003}x\u{2003}y\u{2003}",
        "\u{85}\u{1680}z\u{2028}\u{2029}\u{202f}\u{205f}",
        "\u{200b}zero width is no space\u{200b}",
        "  \u{1f600}  ",
        "02:aa:bb:cc:dd:ee\n",
        "\u{b}\u{c}v\u{b}\u{c}",
    ];
    for sample in samples {
        assert_eq!(trim(sample), sample.trim(), "{:?}", sample);
    }
}
