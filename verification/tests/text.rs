use craite::text::{
    char_is_whitespace, chars_contain, chars_of, decimal_string, has_text, same_text,
    joined, string_of, to_lower_char, to_lowercase, trimmed,
};

#[test]
fn chars_of_gives_the_characters() {
    assert_eq!(chars_of("aé✓"), vec!['a', 'é', '✓']);
    assert_eq!(chars_of(""), Vec::<char>::new());
}

#[test]
fn string_of_takes_a_range() {
    let chars = chars_of("hello");
    assert_eq!(string_of(&chars, 1, 4), "ell");
    assert_eq!(string_of(&chars, 2, 2), "");
    assert_eq!(string_of(&chars, 0, 5), "hello");
}

#[test]
fn same_text_compares_contents() {
    assert!(same_text("solidity", "solidity"));
    assert!(!same_text("solidity", "Solidity"));
    assert!(!same_text("solidity", "solidit"));
    assert!(same_text("", ""));
}

#[test]
fn contains_finds_a_part_anywhere() {
    let hay = chars_of("function f() public { x = tx.origin; }");
    assert!(has_text(&hay, "tx.origin"));
    assert!(has_text(&hay, "function"));
    assert!(has_text(&hay, "}"));
    assert!(!has_text(&hay, "tx.Origin"));
    assert!(!has_text(&hay, "origin;;"));
}

#[test]
fn contains_agrees_with_the_standard_library() {
    let hays = ["", "a", "aaa", "abcabd", "ααβ", "for (i++)"];
    let needles = ["", "a", "aa", "abd", "abx", "αβ", "β", "i++", "for (", "abcabdx"];
    for hay in hays {
        for needle in needles {
            assert_eq!(
                chars_contain(&chars_of(hay), &chars_of(needle)),
                hay.contains(needle),
                "{:?} in {:?}",
                needle,
                hay
            );
        }
    }
}

#[test]
fn the_empty_text_is_part_of_every_text() {
    assert!(has_text(&chars_of(""), ""));
    assert!(has_text(&chars_of("abc"), ""));
}

#[test]
fn whitespace_is_the_unicode_property() {
    for code in 0u32..0x3100 {
        if let Some(c) = char::from_u32(code) {
            assert_eq!(char_is_whitespace(c), c.is_whitespace(), "U+{:04X}", code);
        }
    }
}

#[test]
fn trimmed_agrees_with_the_standard_library() {
    let samples = [
        "",
        " ",
        "  a  ",
        "\n\ta b\r\n",
        "a",
        "\u{a0}x\u{3000}",
        " \u{2003}é ü\u{85} ",
        "no space",
        " inner  space kept ",
    ];
    for sample in samples {
        assert_eq!(trimmed(sample), sample.trim(), "{:?}", sample);
    }
}

#[test]
fn lowercase_folds_ascii_letters() {
    assert_eq!(to_lowercase("ERC20"), "erc20");
    assert_eq!(to_lowercase("ERC721"), "erc721");
    assert_eq!(to_lowercase("MixedCase_09"), "mixedcase_09");
    assert_eq!(to_lowercase(""), "");
    assert_eq!(to_lower_char('A'), 'a');
    assert_eq!(to_lower_char('Z'), 'z');
    assert_eq!(to_lower_char('@'), '@');
    assert_eq!(to_lower_char('['), '[');
    assert_eq!(to_lower_char('É'), 'É');
}

#[test]
fn decimal_writes_numerals() {
    assert_eq!(decimal_string(0), "0");
    assert_eq!(decimal_string(7), "7");
    assert_eq!(decimal_string(10), "10");
    assert_eq!(decimal_string(4000), "4000");
    assert_eq!(decimal_string(1234567890), "1234567890");
    assert_eq!(decimal_string(u64::MAX), "18446744073709551615");
}

#[test]
fn joined_appends() {
    assert_eq!(joined("Tool not found: ", "x"), "Tool not found: x");
    assert_eq!(joined("", ""), "");
}
