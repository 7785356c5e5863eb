use authencore::text::{
    chars_of, concat2, concat3, decimal, is_whitespace, join_path, same_text, split_first, trim,
};

#[test]
fn numbers_are_written_in_decimal() {
    assert_eq!(decimal(0), "0");
    assert_eq!(decimal(9), "9");
    assert_eq!(decimal(10), "10");
    assert_eq!(decimal(1_234_567_890), "1234567890");
    assert_eq!(decimal(u64::MAX), "18446744073709551615");
    for number in [1u64, 99, 100, 101, 4_294_967_295, 4_294_967_296] {
        assert_eq!(decimal(number), number.to_string());
    }
}

#[test]
fn texts_are_joined() {
    assert_eq!(concat2("ab", "cd"), "abcd");
    assert_eq!(concat2("", ""), "");
    assert_eq!(concat3("a", "", "c"), "ac");
    assert_eq!(concat3("\u{e9}", "-", "\u{1f600}"), "\u{e9}-\u{1f600}");
}

#[test]
fn texts_are_compared() {
    assert!(same_text("", ""));
    assert!(same_text("Closed", "Closed"));
    assert!(!same_text("Closed", "closed"));
    assert!(!same_text("Closed", "Close"));
    assert!(!same_text("a", "ab"));
}

#[test]
fn paths_are_joined_with_one_separator() {
    assert_eq!(join_path("/var/cache", "file"), "/var/cache/file");
    assert_eq!(join_path("/var/cache/", "file"), "/var/cache/file");
    assert_eq!(join_path("", "file"), "file");
    assert_eq!(join_path("/", "file"), "/file");
    assert_eq!(join_path(".", "file"), "./file");
    assert_eq!(join_path("d\u{e9}p\u{f4}t", "file"), "d\u{e9}p\u{f4}t/file");
    for (directory, name) in [("/a/b", "c"), ("/a/b/", "c"), ("", "c"), ("rel", "c.json")] {
        assert_eq!(
            join_path(directory, name),
            std::path::Path::new(directory).join(name).to_string_lossy()
        );
    }
}

#[test]
fn characters_are_listed() {
    assert_eq!(chars_of(""), Vec::<char>::new());
    assert_eq!(chars_of("a\u{e9}\u{1f600}"), vec!['a', '\u{e9}', '\u{1f600}']);
}

#[test]
fn white_space_is_what_unicode_says() {
    for code in 0..=0x3100u32 {
        if let Some(c) = char::from_u32(code) {
            assert_eq!(is_whitespace(c), c.is_whitespace());
        }
    }
    assert!(!is_whitespace('\u{feff}'));
    assert!(!is_whitespace('\u{200b}'));
    assert!(!is_whitespace('\u{10ffff}'));
}

#[test]
fn trimming_agrees_with_std() {
    let texts = [
        "",
        " ",
        "\t\n\r ",
        "a",
        " a",
        "a ",
        "  a b  ",
        "\u{a0}x\u{3000}",
        "\u{2003}\u{2003}",
        "x\u{200b} ",
        "\r\nkey = value\r\n",
    ];
    for text in texts {
        assert_eq!(trim(text), text.trim());
    }
}

#[test]
fn text_is_split_at_the_first_mark() {
    assert_eq!(split_first("key=value", '='), ("key", Some("value")));
    assert_eq!(split_first("a=b=c", '='), ("a", Some("b=c")));
    assert_eq!(split_first("=", '='), ("", Some("")));
    assert_eq!(split_first("novalue", '='), ("novalue", None));
    assert_eq!(split_first("", '='), ("", None));
    assert_eq!(split_first("line\n", '\n'), ("line", Some("")));
    assert_eq!(split_first("\u{e9}\u{1f600}=\u{e9}", '='), ("\u{e9}\u{1f600}", Some("\u{e9}")));
    for text in ["a=b", "==", "abc", "\u{e9}=", "=x=y"] {
        let expected = match text.split_once('=') {
            Some((before, after)) => (before, Some(after)),
            None => (text, None),
        };
        assert_eq!(split_first(text, '='), expected);
    }
}
