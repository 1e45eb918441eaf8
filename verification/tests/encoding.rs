use appsignal::{EncodeError, NativeText};

#[test]
fn encode_appends_the_terminator() {
    let text = NativeText::encode("hello").unwrap();
    assert_eq!(text.as_bytes_with_nul(), b"hello\0");
}

#[test]
fn encode_of_empty_text_is_the_terminator_alone() {
    let text = NativeText::encode("").unwrap();
    assert_eq!(text.as_bytes_with_nul(), &[0u8]);
    assert_eq!(text.decode(), "");
}

#[test]
fn decode_gives_the_text_back() {
    let text = NativeText::encode("req-1").unwrap();
    assert_eq!(text.decode(), "req-1");
}

#[test]
fn round_trip_keeps_text_of_every_width() {
    let samples = [
        "a",
        "plain ascii with spaces",
        "caf\u{e9}",
        "\u{7ff}\u{800}\u{ffff}",
        "\u{10000}\u{10ffff}",
        "\u{1}\u{7f}\u{80}",
        "tab\tnewline\nquote\"backslash\\",
        "\u{65e5}\u{672c}\u{8a9e} \u{1f980}",
    ];
    for sample in samples {
        let text = NativeText::encode(sample).unwrap();
        assert_eq!(text.decode(), sample);
        let mut expected = sample.as_bytes().to_vec();
        expected.push(0);
        assert_eq!(text.as_bytes_with_nul(), &expected[..]);
    }
}

#[test]
fn round_trip_holds_for_each_single_character() {
    for code in 1u32..=0x10ffff {
        if let Some(c) = char::from_u32(code) {
            let sample = c.to_string();
            let text = NativeText::encode(&sample).unwrap();
            assert_eq!(text.decode(), sample);
        }
    }
}

#[test]
fn encoded_bytes_hold_one_zero_at_the_end() {
    let text = NativeText::encode("a\u{100}b\u{4000}c\u{100000}").unwrap();
    let bytes = text.as_bytes_with_nul();
    assert_eq!(bytes.iter().filter(|b| **b == 0).count(), 1);
    assert_eq!(bytes[bytes.len() - 1], 0);
}

#[test]
fn encode_rejects_an_interior_nul() {
    assert_eq!(
        NativeText::encode("ab\0cd"),
        Err(EncodeError::InteriorNul { position: 2 })
    );
}

#[test]
fn encode_rejects_a_nul_alone_and_at_either_end() {
    assert_eq!(NativeText::encode("\0"), Err(EncodeError::InteriorNul { position: 0 }));
    assert_eq!(NativeText::encode("\0abc"), Err(EncodeError::InteriorNul { position: 0 }));
    assert_eq!(NativeText::encode("abc\0"), Err(EncodeError::InteriorNul { position: 3 }));
}

#[test]
fn nul_position_counts_bytes_and_names_the_first() {
    assert_eq!(
        NativeText::encode("\u{e9}\0"),
        Err(EncodeError::InteriorNul { position: 2 })
    );
    assert_eq!(
        NativeText::encode("\u{1f980}x\0y\0"),
        Err(EncodeError::InteriorNul { position: 5 })
    );
}

#[test]
fn encoding_the_same_text_twice_fails_the_same_way() {
    let first = NativeText::encode("k\0");
    let second = NativeText::encode("k\0");
    assert_eq!(first, second);
    assert!(first.is_err());
}

#[test]
fn clone_keeps_the_text() {
    let text = NativeText::encode("namespace").unwrap();
    let copy = text.clone();
    assert_eq!(copy, text);
    assert_eq!(copy.decode(), "namespace");
}

#[test]
fn holds_nul_finds_a_nul_anywhere() {
    assert!(NativeText::holds_nul("\0"));
    assert!(NativeText::holds_nul("a\0"));
    assert!(NativeText::holds_nul("\u{e9}\u{1f980}\0z"));
    assert!(!NativeText::holds_nul(""));
    assert!(!NativeText::holds_nul("plain"));
    assert!(!NativeText::holds_nul("\u{100}\u{4000}\u{100000}"));
}

#[test]
fn holds_nul_says_when_encode_fails() {
    for sample in ["", "a", "\0", "a\0b", "caf\u{e9}", "\u{1}\u{0}"] {
        assert_eq!(NativeText::holds_nul(sample), NativeText::encode(sample).is_err());
    }
}
