use winproctool::wide::wide_null;

fn expected_wide(text: &str) -> Vec<u16> {
    text.encode_utf16().chain(Some(0)).collect()
}

#[test]
fn wide_null_of_nothing_is_the_terminator() {
    assert_eq!(wide_null(""), vec![0u16]);
}

#[test]
fn wide_null_of_plain_text() {
    assert_eq!(wide_null("a"), vec![0x61, 0]);
    assert_eq!(
        wide_null("notepad.exe"),
        vec![0x6E, 0x6F, 0x74, 0x65, 0x70, 0x61, 0x64, 0x2E, 0x65, 0x78, 0x65, 0]
    );
}

#[test]
fn wide_null_of_the_basic_plane() {
    assert_eq!(wide_null("é"), vec![0x00E9, 0]);
    assert_eq!(wide_null("東"), vec![0x6771, 0]);
    assert_eq!(wide_null("\u{FFFF}"), vec![0xFFFF, 0]);
    assert_eq!(wide_null("\u{D7FF}\u{E000}"), vec![0xD7FF, 0xE000, 0]);
}

#[test]
fn wide_null_uses_surrogate_pairs_beyond_the_basic_plane() {
    assert_eq!(wide_null("\u{10000}"), vec![0xD800, 0xDC00, 0]);
    assert_eq!(wide_null("𝄞"), vec![0xD834, 0xDD1E, 0]);
    assert_eq!(wide_null("\u{10FFFF}"), vec![0xDBFF, 0xDFFF, 0]);
}

#[test]
fn wide_null_keeps_an_inner_zero() {
    assert_eq!(wide_null("a\u{0}b"), vec![0x61, 0, 0x62, 0]);
}

#[test]
fn wide_null_agrees_with_std() {
    let texts = [
        "",
        "C:\\Windows\\System32\\notepad.exe",
        "résumé.exe",
        "東京/アプリ.exe",
        "a𝄞b\u{10FFFF}c\u{10000}",
        "\u{7F}\u{80}\u{7FF}\u{800}\u{FFFD}",
    ];
    for text in texts {
        assert_eq!(wide_null(text), expected_wide(text), "{:?}", text);
    }
}

#[test]
fn wide_null_length_is_bounded_by_the_text() {
    for text in ["", "abc", "𝄞𝄞", "a𝄞é"] {
        let chars = text.chars().count();
        let units = wide_null(text).len() - 1;
        assert!(chars <= units && units <= 2 * chars);
    }
}
