use pam_args::number::{push_decimal, read_i32};
use pam_args::text::{
    concat2, concat3, concat5, from_chars, is_whitespace_char, same_text, to_ascii_lower, to_chars,
    trim, trim_bounds,
};

#[test]
fn white_space_is_what_the_standard_library_calls_white_space() {
    let mut count = 0;
    for code in 0..=0x10FFFFu32 {
        if let Some(c) = char::from_u32(code) {
            assert_eq!(is_whitespace_char(c), c.is_whitespace(), "U+{:04X}", code);
            if is_whitespace_char(c) {
                count += 1;
            }
        }
    }
    assert_eq!(count, 25);
}

#[test]
fn trimming_is_what_the_standard_library_calls_trimming() {
    for text in [
        "",
        " ",
        "a",
        "  a",
        "a  ",
        "  a b  ",
        "\t\r\n a \u{a0}\u{2003}",
        "\u{3000}日本\u{3000}",
        "\u{200b}x\u{200b}",
        " \u{feff} ",
    ] {
        assert_eq!(trim(text), text.trim());
    }
    let chars: Vec<char> = "  ab  ".chars().collect();
    assert_eq!(trim_bounds(&chars, 0, 6), (2, 4));
    assert_eq!(trim_bounds(&chars, 1, 3), (2, 3));
    assert_eq!(trim_bounds(&chars, 0, 2), (2, 2));
    assert_eq!(trim_bounds(&chars, 4, 6), (6, 6));
}

#[test]
fn texts_go_to_characters_and_back() {
    let chars = to_chars("añ日😀");
    assert_eq!(chars, vec!['a', 'ñ', '日', '😀']);
    assert_eq!(from_chars(&chars, 0, 4), "añ日😀");
    assert_eq!(from_chars(&chars, 1, 3), "ñ日");
    assert_eq!(from_chars(&chars, 2, 2), "");
    assert!(to_chars("").is_empty());
}

#[test]
fn texts_are_joined_in_order() {
    assert_eq!(concat2("ab", "cd"), "abcd");
    assert_eq!(concat2("", ""), "");
    assert_eq!(concat3("a", "", "c"), "ac");
    assert_eq!(concat5("1", "2", "3", "4", "5"), "12345");
    assert!(same_text("abc", "abc"));
    assert!(!same_text("abc", "abd"));
    assert!(!same_text("abc", "ab"));
    assert!(same_text("", ""));
}

#[test]
fn numbers_are_written_in_decimal() {
    for n in [0usize, 1, 9, 10, 11, 99, 100, 12345, 4294967295, usize::MAX] {
        let mut out = String::from("n=");
        push_decimal(&mut out, n);
        assert_eq!(out, format!("n={}", n));
    }
}

#[test]
fn numbers_are_read_from_characters() {
    let read = |text: &str| read_i32(&text.chars().collect::<Vec<char>>());
    assert_eq!(read("42"), Some(42));
    assert_eq!(read("-42"), Some(-42));
    assert_eq!(read("+42"), Some(42));
    assert_eq!(read("2147483647"), Some(2147483647));
    assert_eq!(read("2147483648"), None);
    assert_eq!(read("-2147483648"), Some(-2147483648));
    assert_eq!(read("-2147483649"), None);
    assert_eq!(read(""), None);
    assert_eq!(read("-"), None);
    assert_eq!(read("4a"), None);
    assert_eq!(read("٤٢"), None);
}

#[test]
fn capital_letters_of_ascii_are_lowered_and_nothing_else() {
    for code in 0..=0x10FFFFu32 {
        if let Some(c) = char::from_u32(code) {
            let text = c.to_string();
            assert_eq!(to_ascii_lower(&text), text.to_ascii_lowercase(), "U+{:04X}", code);
        }
    }
    assert_eq!(to_ascii_lower("Hello, WORLD! ÄÖ"), "hello, world! ÄÖ");
    assert_eq!(to_ascii_lower(""), "");
}
