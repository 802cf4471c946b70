use souldos::text::chars_of;
use souldos::text::enclose;
use souldos::text::eq_ignore_ascii_case;
use souldos::text::fold_ascii;
use souldos::text::is_whitespace;
use souldos::text::join;
use souldos::text::split_whitespace;
use souldos::text::text_eq;

#[test]
fn whitespace_is_what_std_calls_whitespace() {
    let mut code: u32 = 0;
    while code <= 0x10FFFF {
        if let Some(c) = char::from_u32(code) {
            assert_eq!(is_whitespace(c), c.is_whitespace(), "U+{:04X}", code);
        }
        code += 1;
    }
}

#[test]
fn whitespace_examples() {
    for c in [' ', '\t', '\n', '\r', '\u{0B}', '\u{0C}', '\u{85}', '\u{A0}', '\u{3000}'] {
        assert!(is_whitespace(c));
    }
    for c in ['a', '-', '0', '\u{200B}', '\u{1C}', '\u{FEFF}'] {
        assert!(!is_whitespace(c));
    }
}

#[test]
fn folding_is_ascii_lower_case() {
    let mut code: u32 = 0;
    while code <= 0x10FFFF {
        if let Some(c) = char::from_u32(code) {
            assert_eq!(fold_ascii(c), c.to_ascii_lowercase() as u32, "U+{:04X}", code);
        }
        code += 1;
    }
    assert_eq!(fold_ascii('A'), 'a' as u32);
    assert_eq!(fold_ascii('Z'), 'z' as u32);
    assert_eq!(fold_ascii('@'), '@' as u32);
    assert_eq!(fold_ascii('['), '[' as u32);
    assert_eq!(fold_ascii('É'), 'É' as u32);
}

#[test]
fn chars_of_keeps_every_character() {
    assert_eq!(chars_of(""), Vec::<char>::new());
    assert_eq!(chars_of("a b"), vec!['a', ' ', 'b']);
    assert_eq!(chars_of("é\u{3000}ü"), vec!['é', '\u{3000}', 'ü']);
}

#[test]
fn text_eq_is_equality() {
    assert!(text_eq("", ""));
    assert!(text_eq("ping", "ping"));
    assert!(!text_eq("ping", "Ping"));
    assert!(!text_eq("ping", "pin"));
    assert!(!text_eq("pin", "ping"));
    assert!(!text_eq("ping", "pong"));
    assert!(text_eq("héllo", "héllo"));
}

#[test]
fn eq_ignore_ascii_case_sets_only_ascii_case_aside() {
    let samples = ["", "exit", "EXIT", "eXiT", "quit", "QuIt", "exit ", "exi", "É", "é", "k", "K", "\u{212A}"];
    for a in samples {
        for b in samples {
            assert_eq!(eq_ignore_ascii_case(a, b), a.eq_ignore_ascii_case(b), "{:?} {:?}", a, b);
        }
    }
    assert!(eq_ignore_ascii_case("Exit", "exit"));
    assert!(!eq_ignore_ascii_case("exit", "quit"));
    assert!(!eq_ignore_ascii_case("É", "é"));
}

#[test]
fn join_and_enclose_concatenate() {
    assert_eq!(join("", ""), "");
    assert_eq!(join("ab", "cd"), "abcd");
    assert_eq!(enclose("<", "x", ">"), "<x>");
    assert_eq!(enclose("", "", ""), "");
}

#[test]
fn split_whitespace_gives_the_words_in_order() {
    assert_eq!(split_whitespace("ping"), vec!["ping".to_string()]);
    assert_eq!(
        split_whitespace("collapse-truth joy fast now"),
        vec!["collapse-truth", "joy", "fast", "now"]
    );
    assert_eq!(split_whitespace("  a\t\tb \n"), vec!["a", "b"]);
    assert_eq!(split_whitespace("a\u{3000}b\u{A0}c"), vec!["a", "b", "c"]);
    assert_eq!(split_whitespace("é ü"), vec!["é", "ü"]);
}

#[test]
fn split_whitespace_of_a_blank_line_is_empty() {
    assert!(split_whitespace("").is_empty());
    assert!(split_whitespace(" ").is_empty());
    assert!(split_whitespace(" \t\r\n\u{2003}").is_empty());
}

#[test]
fn split_whitespace_agrees_with_std() {
    let lines = [
        "",
        " ",
        "a",
        " a",
        "a ",
        " a ",
        "a b",
        "a  b",
        "\ta\nb\r\nc\u{85}d",
        "check-module-integrity TensorMemoryDriver",
        "  run-onnx-test   model.onnx\tinput  ",
        "x\u{200B}y z",
    ];
    for line in lines {
        let expected: Vec<String> = line.split_whitespace().map(String::from).collect();
        assert_eq!(split_whitespace(line), expected, "{:?}", line);
    }
}
