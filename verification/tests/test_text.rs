use s7forge::lex_order::{chars_equal, chars_less, insert_sorted};
use s7forge::numbers::{parse_u32, parse_u64};
use s7forge::test_config::TestConfig;
use s7forge::text::{
    char_is_whitespace, decimal_string, from_chars, keep_pieces, split_chars,
    split_chars_on_comma_space, str_eq, to_chars, trim, trim_chars,
};

fn chars(text: &str) -> Vec<char> {
    text.chars().collect()
}

fn strings(pieces: &Vec<Vec<char>>) -> Vec<String> {
    pieces.iter().map(|piece| piece.iter().collect()).collect()
}

#[test]
fn characters_and_strings_convert_both_ways() {
    for text in ["", "a", "héllo wörld", "日本語", "tab\there\n"] {
        assert_eq!(to_chars(text), chars(text));
        assert_eq!(from_chars(&chars(text)), text);
    }
    assert_eq!(from_chars(&vec!['a', 'b']), "ab");
    assert_eq!(from_chars(&vec!['x']).len(), 1);
}

#[test]
fn strings_are_equal_when_their_characters_are() {
    assert!(str_eq("", ""));
    assert!(str_eq("Community", "Community"));
    assert!(!str_eq("Community", "community"));
    assert!(!str_eq("Community", "Communit"));
    assert!(!str_eq("a", ""));
}

#[test]
fn white_space_is_what_the_standard_library_says() {
    for code in 0u32..=0x10ffff {
        if let Some(c) = char::from_u32(code) {
            assert_eq!(char_is_whitespace(c), c.is_whitespace(), "U+{:04X}", code);
        }
    }
}

#[test]
fn trimming_removes_white_space_at_both_ends_only() {
    assert_eq!(trim("  a b  "), "a b");
    assert_eq!(trim("\t\n x\u{a0}\u{3000}"), "x");
    assert_eq!(trim("   "), "");
    assert_eq!(trim(""), "");
    assert_eq!(trim("x"), "x");
    assert_eq!(trim_chars(&chars(" a ")), vec!['a']);
    for text in ["  a b  ", "\t\n x\u{a0}\u{3000}", "   ", "", "x", " \u{2003}é \u{85}", "a  "] {
        assert_eq!(trim(text), text.trim());
    }
}

#[test]
fn splitting_at_a_character_gives_one_piece_more_than_separators() {
    assert_eq!(strings(&split_chars("a,b,,c", ',')), vec!["a", "b", "", "c"]);
    assert_eq!(strings(&split_chars("", ',')), vec![""]);
    assert_eq!(strings(&split_chars(",", ',')), vec!["", ""]);
    assert_eq!(strings(&split_chars("abc", ',')), vec!["abc"]);
    for text in ["a,b,,c", "", ",", "abc", ",a,", " x , y "] {
        let expected: Vec<String> = text.split(',').map(|piece| piece.to_string()).collect();
        assert_eq!(strings(&split_chars(text, ',')), expected);
    }
}

#[test]
fn splitting_at_comma_space_takes_both_characters() {
    assert_eq!(strings(&split_chars_on_comma_space("mod, weapon, map")), vec!["mod", "weapon", "map"]);
    assert_eq!(strings(&split_chars_on_comma_space("a,b")), vec!["a,b"]);
    assert_eq!(strings(&split_chars_on_comma_space("")), vec![""]);
    assert_eq!(strings(&split_chars_on_comma_space(", ")), vec!["", ""]);
    for text in ["mod, weapon, map", "a,b", "", ", ", "a,, b", "a, , b", ", , ", "a ,b", "x,  y", "end, "] {
        let expected: Vec<String> = text.split(", ").map(|piece| piece.to_string()).collect();
        assert_eq!(strings(&split_chars_on_comma_space(text)), expected, "text {:?}", text);
    }
}

#[test]
fn kept_pieces_are_trimmed_and_not_empty() {
    let pieces = vec![chars(" a "), chars(""), chars("  "), chars("b c"), chars("\td")];
    assert_eq!(keep_pieces(&pieces), vec!["a".to_string(), "b c".to_string(), "d".to_string()]);
    assert_eq!(keep_pieces(&Vec::new()), Vec::<String>::new());
}

#[test]
fn numbers_are_written_in_decimal() {
    for n in [0u64, 1, 9, 10, 11, 99, 100, 101, 12345, 548430, u32::MAX as u64, u64::MAX] {
        assert_eq!(decimal_string(n), n.to_string());
    }
    assert_eq!(decimal_string(7), "7");
    assert_eq!(decimal_string(1200), "1200");
}

#[test]
fn numbers_are_read_from_digits() {
    assert_eq!(parse_u64("0"), Some(0));
    assert_eq!(parse_u64("548430"), Some(548430));
    assert_eq!(parse_u64("+17"), Some(17));
    assert_eq!(parse_u64("007"), Some(7));
    assert_eq!(parse_u64("18446744073709551615"), Some(u64::MAX));
    assert_eq!(parse_u64("18446744073709551616"), None);
    assert_eq!(parse_u64("99999999999999999999999"), None);
    assert_eq!(parse_u64(""), None);
    assert_eq!(parse_u64("+"), None);
    assert_eq!(parse_u64("-1"), None);
    assert_eq!(parse_u64("12a"), None);
    assert_eq!(parse_u64(" 12"), None);
    assert_eq!(parse_u64("1 "), None);
    assert_eq!(parse_u64("++1"), None);
    assert_eq!(parse_u64("１２"), None);
    assert_eq!(parse_u32("4294967295"), Some(u32::MAX));
    assert_eq!(parse_u32("4294967296"), None);
    assert_eq!(parse_u32("+0"), Some(0));
    assert_eq!(parse_u32("x"), None);
    for text in ["0", "548430", "+17", "007", "18446744073709551615", "18446744073709551616", "", "+", "-1", "12a", " 12", "+-1", "4294967296"] {
        assert_eq!(parse_u64(text), text.parse::<u64>().ok(), "text {:?}", text);
        assert_eq!(parse_u32(text), text.parse::<u32>().ok(), "text {:?}", text);
    }
}

#[test]
fn a_test_configuration_needs_three_numbers() {
    assert_eq!(
        TestConfig::load("548430", "123456789", "987654321"),
        Some(TestConfig { app_id: 548430, item_id: 123456789, collection_id: 987654321 })
    );
    assert_eq!(TestConfig::load("", "1", "2"), None);
    assert_eq!(TestConfig::load("1", "x", "2"), None);
    assert_eq!(TestConfig::load("1", "2", "-3"), None);
    assert_eq!(TestConfig::load("4294967296", "2", "3"), None);
    assert_eq!(
        TestConfig::load("1", "18446744073709551615", "0"),
        Some(TestConfig { app_id: 1, item_id: u64::MAX, collection_id: 0 })
    );
}

#[test]
fn strings_sort_as_the_standard_library_sorts_them() {
    let words = ["", "a", "A", "ab", "b", "aa", "é", "z", "日本", "a\u{10000}", "a\u{ffff}", "mod", "Mod"];
    for left in words {
        for right in words {
            assert_eq!(chars_less(&chars(left), &chars(right)), left < right, "{:?} < {:?}", left, right);
            assert_eq!(chars_equal(&chars(left), &chars(right)), left == right);
        }
    }
}

#[test]
fn sorted_insertion_keeps_the_list_sorted_and_without_doubles() {
    let mut list: Vec<Vec<char>> = Vec::new();
    for word in ["mod", "map", "weapon", "mod", "a", "zz", "map", ""] {
        insert_sorted(&mut list, chars(word));
    }
    assert_eq!(strings(&list), vec!["", "a", "map", "mod", "weapon", "zz"]);
}
