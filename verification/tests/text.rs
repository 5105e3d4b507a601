use luau_bridge::text::{is_whitespace_char, leading_whitespace_len, trim_start};

#[test]
fn whitespace_agrees_with_std_on_every_char() {
    let mut code: u32 = 0;
    let mut count = 0;
    while code <= 0x10FFFF {
        if let Some(c) = char::from_u32(code) {
            assert_eq!(is_whitespace_char(c), c.is_whitespace(), "U+{:04X}", code);
            if is_whitespace_char(c) {
                count += 1;
            }
        }
        code += 1;
    }
    assert_eq!(count, 25);
}

#[test]
fn whitespace_on_chosen_chars() {
    assert!(is_whitespace_char(' '));
    assert!(is_whitespace_char('\t'));
    assert!(is_whitespace_char('\n'));
    assert!(is_whitespace_char('\r'));
    assert!(is_whitespace_char('\u{0B}'));
    assert!(is_whitespace_char('\u{0C}'));
    assert!(is_whitespace_char('\u{85}'));
    assert!(is_whitespace_char('\u{A0}'));
    assert!(is_whitespace_char('\u{3000}'));
    assert!(!is_whitespace_char('\u{08}'));
    assert!(!is_whitespace_char('\u{0E}'));
    assert!(!is_whitespace_char('\u{200B}'));
    assert!(!is_whitespace_char('\u{FEFF}'));
    assert!(!is_whitespace_char('a'));
    assert!(!is_whitespace_char('-'));
}

#[test]
fn leading_whitespace_is_counted_in_chars() {
    assert_eq!(leading_whitespace_len(""), 0);
    assert_eq!(leading_whitespace_len("return 1"), 0);
    assert_eq!(leading_whitespace_len("   return 1"), 3);
    assert_eq!(leading_whitespace_len(" \t\r\n"), 4);
    assert_eq!(leading_whitespace_len("\u{3000}\u{A0}x  "), 2);
    assert_eq!(leading_whitespace_len("x   "), 0);
}

#[test]
fn trim_start_strips_leading_whitespace_only() {
    assert_eq!(trim_start("   return 1"), "return 1");
    assert_eq!(trim_start("return 1   "), "return 1   ");
    assert_eq!(trim_start("  return 1  "), "return 1  ");
    assert_eq!(trim_start("\n\t local a = 1\n\treturn a\n"), "local a = 1\n\treturn a\n");
    assert_eq!(trim_start("return  1"), "return  1");
}

#[test]
fn trim_start_on_edge_cases() {
    assert_eq!(trim_start(""), "");
    assert_eq!(trim_start("   "), "");
    assert_eq!(trim_start("\u{2028}\u{2029}\u{205F}é \u{3000}"), "é \u{3000}");
    assert_eq!(trim_start("\u{200B} x"), "\u{200B} x");
    assert_eq!(trim_start("\u{0}  x"), "\u{0}  x");
}

#[test]
fn trim_start_agrees_with_std() {
    let samples = [
        "",
        " ",
        "a",
        " a",
        "a ",
        "  -- comment\nreturn 1",
        "\u{1680}\u{2000}\u{200A}\u{202F}return '\u{1F600}'  ",
        "\r\n\r\nreturn",
        "日本語 ",
        " \u{85}\u{A0}日本語",
    ];
    for sample in samples {
        assert_eq!(trim_start(sample), sample.trim_start());
    }
}

#[test]
fn trim_start_is_idempotent() {
    let samples = ["   return 1", "return 1   ", " \t ", "", "\u{3000} x \u{3000}"];
    for sample in samples {
        assert_eq!(trim_start(trim_start(sample)), trim_start(sample));
    }
}

#[test]
fn trim_start_handles_long_runs_of_whitespace() {
    let mut padded = " \t\n\u{3000}".repeat(100_000);
    padded.push_str("return 1 ");
    assert_eq!(leading_whitespace_len(&padded), 400_000);
    assert_eq!(trim_start(&padded), "return 1 ");
}
