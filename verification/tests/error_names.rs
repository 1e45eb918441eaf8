use appsignal::error_name::{error_name_of, is_whitespace_char};

fn first_token(message: &str) -> String {
    message.split_whitespace().next().unwrap_or("unknown").to_owned()
}

#[test]
fn whitespace_is_what_the_standard_library_calls_whitespace() {
    for code in 0u32..=0x10ffff {
        if let Some(c) = char::from_u32(code) {
            assert_eq!(is_whitespace_char(c), c.is_whitespace(), "U+{:04X}", code);
        }
    }
}

#[test]
fn name_is_the_first_word_of_the_message() {
    assert_eq!(error_name_of("Boom: something failed"), "Boom:");
}

#[test]
fn name_of_an_empty_message_is_unknown() {
    assert_eq!(error_name_of(""), "unknown");
}

#[test]
fn name_of_a_blank_message_is_unknown() {
    assert_eq!(error_name_of(" \t\n "), "unknown");
    assert_eq!(error_name_of("\u{3000}\u{2028}"), "unknown");
}

#[test]
fn name_skips_leading_whitespace() {
    assert_eq!(error_name_of("   IoError: disk full"), "IoError:");
    assert_eq!(error_name_of("\n\tTimeout"), "Timeout");
}

#[test]
fn name_of_a_single_word_is_the_word() {
    assert_eq!(error_name_of("Timeout"), "Timeout");
    assert_eq!(error_name_of("x"), "x");
}

#[test]
fn name_ends_at_any_whitespace() {
    assert_eq!(error_name_of("a\tb"), "a");
    assert_eq!(error_name_of("a\u{a0}b"), "a");
    assert_eq!(error_name_of("caf\u{e9}\u{2003}au lait"), "caf\u{e9}");
    assert_eq!(error_name_of("one\r\ntwo"), "one");
}

#[test]
fn name_keeps_characters_that_only_look_like_whitespace() {
    assert_eq!(error_name_of("a\u{200b}b c"), "a\u{200b}b");
    assert_eq!(error_name_of("a\u{1f}b c"), "a\u{1f}b");
}

#[test]
fn name_agrees_with_split_whitespace() {
    let samples = [
        "",
        " ",
        "Boom: something failed",
        "  two  spaces",
        "trailing ",
        "\u{85}next line",
        "\u{1680}ogham mark",
        "multi word error type: details",
        "\u{1f980} crab",
        "a\0b c",
    ];
    for sample in samples {
        assert_eq!(error_name_of(sample), first_token(sample), "{:?}", sample);
    }
}
