use winproctool::words::{chars_of, is_whitespace, same_text, split_words};

fn expected_words(line: &str) -> Vec<String> {
    line.trim().split_whitespace().map(|w| w.to_string()).collect()
}

#[test]
fn whitespace_is_what_std_calls_whitespace() {
    let mut code: u32 = 0;
    while code <= 0x10_FFFF {
        if let Some(c) = char::from_u32(code) {
            assert_eq!(is_whitespace(c), c.is_whitespace(), "U+{:04X}", code);
        }
        code += 1;
    }
}

#[test]
fn whitespace_named_characters() {
    assert!(is_whitespace(' '));
    assert!(is_whitespace('\t'));
    assert!(is_whitespace('\n'));
    assert!(is_whitespace('\r'));
    assert!(is_whitespace('\u{00A0}'));
    assert!(is_whitespace('\u{3000}'));
    assert!(!is_whitespace('a'));
    assert!(!is_whitespace('0'));
    assert!(!is_whitespace('\u{0}'));
    assert!(!is_whitespace('\u{200B}'));
    assert!(!is_whitespace('\u{180E}'));
}

#[test]
fn chars_of_keeps_every_character() {
    assert_eq!(chars_of(""), Vec::<char>::new());
    assert_eq!(chars_of("a b"), vec!['a', ' ', 'b']);
    assert_eq!(chars_of("é𝄞"), vec!['é', '𝄞']);
}

#[test]
fn split_words_of_plain_commands() {
    assert_eq!(split_words("create notepad.exe"), vec!["create", "notepad.exe"]);
    assert_eq!(split_words("terminate 1234"), vec!["terminate", "1234"]);
    assert_eq!(split_words("exit"), vec!["exit"]);
}

#[test]
fn split_words_of_blank_lines() {
    assert_eq!(split_words(""), Vec::<String>::new());
    assert_eq!(split_words("\n"), Vec::<String>::new());
    assert_eq!(split_words("   \t \r\n"), Vec::<String>::new());
    assert_eq!(split_words("\u{00A0}\u{2003}"), Vec::<String>::new());
}

#[test]
fn split_words_ignores_surrounding_and_repeated_space() {
    assert_eq!(split_words("  suspend \t  42  \r\n"), vec!["suspend", "42"]);
    assert_eq!(split_words("a"), vec!["a"]);
    assert_eq!(split_words(" a"), vec!["a"]);
    assert_eq!(split_words("a "), vec!["a"]);
    assert_eq!(split_words("a  b   c"), vec!["a", "b", "c"]);
}

#[test]
fn split_words_agrees_with_std() {
    let lines = [
        "",
        " ",
        "create C:\\Windows\\notepad.exe\n",
        "create  \"C:\\Program Files\\x.exe\" --flag",
        "terminate\t99\u{00A0}extra",
        "résumé \u{2028}naïve\u{3000}東京 𝄞",
        "\u{0085}x\u{1680}y\u{205F}z\u{202F}",
        "zero\u{200B}width is no space",
        "a\u{0}b c",
    ];
    for line in lines {
        assert_eq!(split_words(line), expected_words(line), "{:?}", line);
    }
}

#[test]
fn split_words_keeps_words_free_of_space() {
    for word in split_words(" one\ttwo\u{2009}three  four\n") {
        assert!(!word.is_empty());
        assert!(!word.chars().any(|c| c.is_whitespace()));
    }
}

#[test]
fn space_between_two_texts_separates_their_words() {
    let left = "resume  7";
    let right = " and more\n";
    let joined = format!("{}\t{}", left, right);
    let mut expected = split_words(left);
    expected.extend(split_words(right));
    assert_eq!(split_words(&joined), expected);
}

#[test]
fn same_text_compares_by_character() {
    assert!(same_text("", ""));
    assert!(same_text("exit", "exit"));
    assert!(!same_text("exit", "exit "));
    assert!(!same_text("exit", "Exit"));
    assert!(!same_text("exit", "exi"));
    assert!(!same_text("abc", "abd"));
    assert!(same_text("é𝄞", "é𝄞"));
    assert!(!same_text("é", "e"));
}
