use devinsight::text::{
    chars_of, contains_chars, decimal_string, find_char, is_whitespace, matches_at,
    push_padded_left, push_padded_right, push_prefix, push_spaces, str_contains, string_of,
    trim_range, word_ranges,
};

fn words_of(s: &str) -> Vec<String> {
    let chars = chars_of(s);
    word_ranges(&chars, 0, chars.len())
        .iter()
        .map(|(a, b)| string_of(&chars, *a, *b))
        .collect()
}

fn trim(s: &str) -> String {
    let chars = chars_of(s);
    let (a, b) = trim_range(&chars, 0, chars.len());
    string_of(&chars, a, b)
}

#[test]
fn substring_search_agrees_with_the_standard_one() {
    let texts = ["", "a", "ab", "abc", "aab", "abab", "xyz abc", "é", "aéb", " E "];
    for hay in texts {
        for pat in texts {
            assert_eq!(str_contains(hay, pat), hay.contains(pat), "{:?} in {:?}", pat, hay);
        }
    }
    assert!(str_contains("03-21 10:23 E Tag", " E "));
    assert!(!str_contains("03-21 10:23 E", " E "));
}

#[test]
fn pattern_is_found_at_its_position_only() {
    let hay = chars_of("hello world");
    let pat = chars_of("o w");
    assert!(matches_at(&hay, &pat, 4));
    assert!(!matches_at(&hay, &pat, 3));
    assert!(contains_chars(&hay, &pat));
    assert!(contains_chars(&hay, &Vec::new()));
    assert!(contains_chars(&Vec::new(), &Vec::new()));
    assert!(!contains_chars(&Vec::new(), &pat));
}

#[test]
fn first_colon_is_found() {
    assert_eq!(find_char(&chars_of("a:b:c"), ':'), 1);
    assert_eq!(find_char(&chars_of(":"), ':'), 0);
    assert_eq!(find_char(&chars_of("abc"), ':'), 3);
    assert_eq!(find_char(&chars_of(""), ':'), 0);
    assert_eq!(find_char(&chars_of("éé:"), ':'), 2);
}

#[test]
fn whitespace_is_what_the_standard_library_calls_whitespace() {
    for code in 0u32..0x11_0000 {
        if let Some(c) = char::from_u32(code) {
            assert_eq!(is_whitespace(c), c.is_whitespace(), "U+{:04X}", code);
        }
    }
}

#[test]
fn words_agree_with_the_standard_splitting() {
    let texts = [
        "",
        " ",
        "a",
        " a",
        "a ",
        "a b",
        "  a  bb   ccc ",
        "03-21 10:23:45.678  1234  5678 E MyTag",
        "tab\tand\u{00A0}nbsp\u{3000}wide",
        "\n\r x",
    ];
    for text in texts {
        let expected: Vec<String> = text.split_whitespace().map(|w| w.to_string()).collect();
        assert_eq!(words_of(text), expected, "{:?}", text);
    }
}

#[test]
fn trimming_agrees_with_the_standard_one() {
    let texts = ["", " ", "a", "  a", "a  ", "  a b  ", "\t x \n", "\u{2003}é\u{00A0}", "   "];
    for text in texts {
        assert_eq!(trim(text), text.trim(), "{:?}", text);
    }
}

#[test]
fn part_of_a_text_can_be_trimmed() {
    let chars = chars_of("ab:  cd  ");
    assert_eq!(trim_range(&chars, 3, 9), (5, 7));
    assert_eq!(trim_range(&chars, 3, 5), (5, 5));
    assert_eq!(trim_range(&chars, 0, 2), (0, 2));
}

#[test]
fn numbers_are_written_in_base_ten() {
    assert_eq!(decimal_string(0), "0");
    assert_eq!(decimal_string(7), "7");
    assert_eq!(decimal_string(10), "10");
    assert_eq!(decimal_string(1234567890), "1234567890");
    assert_eq!(decimal_string(u64::MAX as u128), u64::MAX.to_string());
    assert_eq!(decimal_string(u128::MAX), u128::MAX.to_string());
}

#[test]
fn padding_fills_up_to_the_width() {
    let mut s = String::from(">");
    push_padded_right(&mut s, "ab", 4);
    push_padded_left(&mut s, "cd", 5);
    push_padded_right(&mut s, "toolong", 3);
    push_padded_left(&mut s, "é", 2);
    push_spaces(&mut s, 2);
    push_spaces(&mut s, 0);
    assert_eq!(s, ">ab     cdtoolong é  ");
}

#[test]
fn prefix_takes_whole_characters() {
    let mut s = String::new();
    push_prefix(&mut s, "héllo", 2);
    push_prefix(&mut s, "ab", 5);
    push_prefix(&mut s, "xyz", 0);
    assert_eq!(s, "héab");
}

#[test]
fn characters_round_trip() {
    let chars = chars_of("aé🔴");
    assert_eq!(chars, vec!['a', 'é', '🔴']);
    assert_eq!(string_of(&chars, 1, 3), "é🔴");
    assert_eq!(string_of(&chars, 2, 2), "");
}
