use twitch_chat::scan::{char_is_whitespace, starts_with_char, str_eq, strip_prefix, trim};

#[test]
fn whitespace_is_the_unicode_property() {
    let mut c: u32 = 0;
    while c <= 0x10ffff {
        if let Some(scalar) = char::from_u32(c) {
            assert_eq!(char_is_whitespace(scalar), scalar.is_whitespace());
        }
        c += 1;
    }
}

#[test]
fn trim_agrees_with_the_standard_library() {
    let samples = [
        "",
        " ",
        "a",
        " a",
        "a ",
        "  a b  ",
        "\t\r\n a \u{a0}\u{3000}",
        "\u{2000}\u{200a}x\u{2028}\u{2029}",
        "\u{200b} a \u{200b}",
        " \t\n\r\u{b}\u{c}",
        "é 日本 🎉 ",
    ];
    for sample in samples {
        assert_eq!(trim(sample), sample.trim());
    }
}

#[test]
fn trim_exact_values() {
    assert_eq!(trim("  hello world \n"), "hello world");
    assert_eq!(trim("   "), "");
    assert_eq!(trim("x"), "x");
}

#[test]
fn strip_prefix_exact_values() {
    assert_eq!(strip_prefix("PING :tmi", "PING :"), Some("tmi"));
    assert_eq!(strip_prefix("PING :", "PING :"), Some(""));
    assert_eq!(strip_prefix("PING", "PING :"), None);
    assert_eq!(strip_prefix("PONG :tmi", "PING :"), None);
    assert_eq!(strip_prefix("abc", ""), Some("abc"));
    assert_eq!(strip_prefix("", ""), Some(""));
    assert_eq!(strip_prefix("", "a"), None);
    assert_eq!(strip_prefix("日本語", "日本"), Some("語"));
}

#[test]
fn starts_with_char_exact_values() {
    assert!(starts_with_char(":a", ':'));
    assert!(!starts_with_char("a:", ':'));
    assert!(!starts_with_char("", ':'));
    assert!(starts_with_char("日本", '日'));
}

#[test]
fn str_eq_exact_values() {
    assert!(str_eq("", ""));
    assert!(str_eq("PRIVMSG", "PRIVMSG"));
    assert!(!str_eq("PRIVMSG", "PRIVMS"));
    assert!(!str_eq("PRIVMS", "PRIVMSG"));
    assert!(!str_eq("PRIVMSG", "privmsg"));
    assert!(!str_eq("", "a"));
    assert!(str_eq("日本", "日本"));
}
