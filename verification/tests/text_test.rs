use suiup::decimal::{char_is_digit, parse_u64, u64_to_text};
use suiup::text::{
    char_is_whitespace, contains, find, is_blank, join_texts, replace_char, split,
    split_once, starts_with, text_eq, text_less, trim,
};

#[test]
fn find_gives_the_leftmost_match() {
    assert_eq!(find("a==b==c", "=="), Some(1));
    assert_eq!(find("aaa", "aa"), Some(0));
    assert_eq!(find("abc", "c"), Some(2));
    assert_eq!(find("abc", ""), Some(0));
    assert_eq!(find("", ""), Some(0));
    assert_eq!(find("abc", "abcd"), None);
    assert_eq!(find("abc", "x"), None);
    assert_eq!(find("héllo wörld", "wö"), Some(6));
    assert!(contains("sui-testnet-v1.53.0", "testnet-v1.53.0"));
    assert!(!contains("sui-testnet-v1.53.0", "devnet"));
}

#[test]
fn split_once_divides_at_the_leftmost_separator() {
    assert_eq!(split_once("sui@testnet@x", "@"), Some(("sui".to_string(), "testnet@x".to_string())));
    assert_eq!(split_once("a===b", "=="), Some(("a".to_string(), "=b".to_string())));
    assert_eq!(split_once("@", "@"), Some((String::new(), String::new())));
    assert_eq!(split_once("sui", "@"), None);
}

#[test]
fn split_gives_one_part_more_than_separators() {
    assert_eq!(split("1.2.3", '.'), vec!["1", "2", "3"]);
    assert_eq!(split("", '.'), vec![""]);
    assert_eq!(split(".", '.'), vec!["", ""]);
    assert_eq!(split("a..b.", '.'), vec!["a", "", "b", ""]);
    assert_eq!(split("abc", '.'), vec!["abc"]);
}

#[test]
fn prefixes_and_equality() {
    assert!(starts_with("testnet-1.0", "testnet-"));
    assert!(starts_with("x", ""));
    assert!(!starts_with("test", "testnet-"));
    assert!(!starts_with("Testnet-1", "testnet-"));
    assert!(text_eq("a", "a"));
    assert!(!text_eq("a", "A"));
    assert_eq!(suiup::text::concat("ab", "cd"), "abcd");
}

#[test]
fn trim_takes_white_space_from_both_ends() {
    assert_eq!(trim("  a b \t\r\n"), "a b");
    assert_eq!(trim("\u{a0}\u{2003}x\u{3000}\u{85}"), "x");
    assert_eq!(trim("   "), "");
    assert_eq!(trim(""), "");
    assert_eq!(trim("x"), "x");
    assert_eq!(trim("\u{200b}x"), "\u{200b}x");
    assert!(is_blank(" \n"));
    assert!(is_blank(""));
    assert!(!is_blank(" . "));
    for c in ['\u{9}', '\u{d}', ' ', '\u{1680}', '\u{2028}', '\u{202f}', '\u{205f}'] {
        assert!(char_is_whitespace(c));
        assert!(c.is_whitespace());
    }
    for c in ['a', '\u{8}', '\u{e}', '\u{200b}', '\u{feff}'] {
        assert!(!char_is_whitespace(c));
        assert!(!c.is_whitespace());
    }
}

#[test]
fn text_order_is_that_of_strings() {
    let words = ["", "a", "ab", "b", "B", "é", "ab ", "aa", "sui", "sui-node", "z😀", "😀"];
    for x in words {
        for y in words {
            assert_eq!(text_less(x, y), x < y, "{x:?} {y:?}");
        }
    }
}

#[test]
fn joining_and_replacing() {
    assert_eq!(join_texts(&vec![], ", "), "");
    assert_eq!(join_texts(&vec!["a".to_string()], ", "), "a");
    assert_eq!(join_texts(&vec!["a".to_string(), "".to_string(), "c".to_string()], ", "), "a, , c");
    assert_eq!(replace_char("MystenLabs/sui", '/', "_"), "MystenLabs_sui");
    assert_eq!(replace_char("a/b/", '/', "--"), "a--b--");
    assert_eq!(replace_char("abc", '/', "_"), "abc");
    assert_eq!(replace_char("//", '/', ""), "");
}

#[test]
fn decimal_numbers_are_read_as_the_machine_reads_them() {
    for text in ["0", "7", "007", "+5", "18446744073709551615", "18446744073709551616", "", "+", "-1", "1 ", " 1", "1_000", "٣", "12a", "++1", "99999999999999999999999"] {
        assert_eq!(parse_u64(text), text.parse::<u64>().ok(), "{text:?}");
    }
}

#[test]
fn decimal_numbers_are_written_without_leading_zeros() {
    for n in [0u64, 1, 9, 10, 11, 99, 100, 101, 12345, 104857600, u64::MAX - 1, u64::MAX] {
        assert_eq!(u64_to_text(n), n.to_string());
        assert_eq!(parse_u64(&u64_to_text(n)), Some(n));
    }
    assert!(char_is_digit('0') && char_is_digit('9'));
    assert!(!char_is_digit('/') && !char_is_digit(':') && !char_is_digit('٣'));
}
