use plextvapi::headers::is_header_value;
use plextvapi::headers::is_visible_value;
use reqwest::header::HeaderValue;

#[test]
fn header_values_take_visible_ascii() {
    assert!(is_header_value(""));
    assert!(is_header_value("abc123"));
    assert!(is_header_value("Maple for Plex"));
    assert!(is_header_value("a\tb"));
    assert!(is_header_value("~"));
    assert!(is_header_value(" "));
}

#[test]
fn header_values_refuse_control_characters() {
    assert!(!is_header_value("a\nb"));
    assert!(!is_header_value("a\rb"));
    assert!(!is_header_value("\u{0}"));
    assert!(!is_header_value("\u{1f}"));
    assert!(!is_header_value("abc\u{7f}"));
}

#[test]
fn header_values_take_bytes_above_ascii() {
    assert!(is_header_value("gr\u{f6}\u{df}e"));
    assert!(is_header_value("\u{80}"));
    assert!(is_header_value("\u{10ffff}"));
}

#[test]
fn visible_text_is_ascii_from_space_to_tilde_and_tab() {
    assert!(is_visible_value(""));
    assert!(is_visible_value("Maple_1_0"));
    assert!(is_visible_value(" ~"));
    assert!(is_visible_value("\t"));
    assert!(!is_visible_value("\u{7f}"));
    assert!(!is_visible_value("\n"));
    assert!(!is_visible_value("\u{1f}"));
    assert!(!is_visible_value("gr\u{f6}\u{df}e"));
    assert!(!is_visible_value("\u{80}"));
}

#[test]
fn is_header_value_agrees_with_the_header_type() {
    let samples = [
        "", "abc", "a b", "a\tb", "a\nb", "\u{7f}", "\u{1}", "\u{e9}", "x\u{0}", "tok-en_1.2~",
        "\u{1f}", " ", "\u{80}", "\u{ff}", "\u{100}", "a\u{b}b", "a\u{c}",
    ];
    for s in samples {
        assert_eq!(is_header_value(s), HeaderValue::from_str(s).is_ok());
    }
}

#[test]
fn is_visible_value_agrees_with_reading_the_value_as_text() {
    let samples = ["", "abc", "a b", "a\tb", "\u{e9}", "tok-en_1.2~", " ", "\u{80}", "\u{ff}"];
    for s in samples {
        let value = HeaderValue::from_str(s).unwrap();
        assert_eq!(is_visible_value(s), value.to_str().is_ok());
    }
}
