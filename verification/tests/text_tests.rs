use booth_organizer::folder_names::sanitize_folder_name as sanitize_in_module;
use booth_organizer::sanitize_folder_name;
use booth_organizer::text::{
    chars_eq, contains_chars, ends_with_chars, find_from, from_chars, join_chars,
    parse_i64_chars, split_chars, to_chars, trim_chars, trim_end_char_chars, trim_end_chars,
    truncate_to_bytes,
};

fn chars(s: &str) -> Vec<char> {
    s.chars().collect()
}

fn text(v: &Vec<char>) -> String {
    v.iter().collect()
}

#[test]
fn chars_and_strings_convert_both_ways() {
    assert_eq!(to_chars("aé日💜"), vec!['a', 'é', '日', '💜']);
    assert_eq!(from_chars(&vec!['a', 'é', '日', '💜']), "aé日💜");
    assert_eq!(from_chars(&Vec::new()), "");
    assert!(chars_eq(&chars("abc"), &chars("abc")));
    assert!(!chars_eq(&chars("abc"), &chars("abd")));
    assert!(!chars_eq(&chars("abc"), &chars("ab")));
}

#[test]
fn trim_removes_unicode_whitespace() {
    for s in ["", "a", " a ", "\t\n\r a b \u{3000}", "\u{a0}x\u{2003}", "   ", "\u{85}y\u{2028}\u{2029}"] {
        assert_eq!(text(&trim_chars(&chars(s))), s.trim(), "input {:?}", s);
        assert_eq!(text(&trim_end_chars(&chars(s))), s.trim_end(), "input {:?}", s);
    }
    // not whitespace: zero width space, BOM
    assert_eq!(text(&trim_chars(&chars("\u{200b}a\u{feff}"))), "\u{200b}a\u{feff}");
    assert_eq!(text(&trim_end_char_chars(&chars("a/b///"), '/')), "a/b");
    assert_eq!(text(&trim_end_char_chars(&chars("///"), '/')), "");
}

#[test]
fn search_finds_the_first_occurrence() {
    let hay = chars("abcabc");
    assert_eq!(find_from(&hay, &chars("bc"), 0), Some(1));
    assert_eq!(find_from(&hay, &chars("bc"), 2), Some(4));
    assert_eq!(find_from(&hay, &chars("bc"), 5), None);
    assert_eq!(find_from(&hay, &chars("x"), 0), None);
    assert_eq!(find_from(&hay, &chars(""), 6), Some(6));
    assert_eq!(find_from(&hay, &chars(""), 7), None);
    assert!(contains_chars(&hay, &chars("cab")));
    assert!(!contains_chars(&hay, &chars("cba")));
    assert!(ends_with_chars(&hay, &chars("abc")));
    assert!(!ends_with_chars(&hay, &chars("ab")));
    assert!(!ends_with_chars(&chars("bc"), &chars("abc")));
}

#[test]
fn split_and_join_agree_with_std() {
    for (s, sep) in [
        ("a - b - c", " - "), ("", " - "), (" - ", " - "), ("a -  - b", " - "), ("aaa", "aa"),
        ("/ja/items/1", "/"), ("//", "/"), ("no separator", "/"),
    ] {
        let parts = split_chars(&chars(s), &chars(sep));
        let got: Vec<String> = parts.iter().map(text).collect();
        let want: Vec<String> = s.split(sep).map(|p| p.to_string()).collect();
        assert_eq!(got, want, "split {:?} by {:?}", s, sep);
        assert_eq!(text(&join_chars(&parts, &chars(sep))), s);
    }
}

#[test]
fn an_empty_separator_separates_nothing() {
    let parts = split_chars(&chars("abc"), &chars(""));
    assert_eq!(parts, vec![chars("abc")]);
    assert_eq!(text(&join_chars(&Vec::new(), &chars(", "))), "");
    assert_eq!(text(&join_chars(&vec![chars("a")], &chars(", "))), "a");
    assert_eq!(text(&join_chars(&vec![chars("a"), chars(""), chars("b")], &chars(", "))), "a, , b");
}

#[test]
fn integers_are_read_as_std_reads_them() {
    for s in [
        "0", "7", "007", "+7", "-7", "123456", "9223372036854775807", "9223372036854775808",
        "-9223372036854775808", "-9223372036854775809", "", "+", "-", "1 ", " 1", "1_000", "１２",
        "0x10", "--1", "+-1", "99999999999999999999999999", "000000000000000000000000001",
    ] {
        assert_eq!(parse_i64_chars(&chars(s)), s.parse::<i64>().ok(), "input {:?}", s);
    }
}

#[test]
fn truncation_keeps_whole_characters() {
    assert_eq!(text(&truncate_to_bytes(&chars("abcdef"), 4)), "abcd");
    assert_eq!(text(&truncate_to_bytes(&chars("abc"), 4)), "abc");
    assert_eq!(text(&truncate_to_bytes(&chars("ああ"), 4)), "あ");
    assert_eq!(text(&truncate_to_bytes(&chars("ああ"), 6)), "ああ");
    assert_eq!(text(&truncate_to_bytes(&chars("💜"), 3)), "");
    assert_eq!(text(&truncate_to_bytes(&chars("aé"), 2)), "a");
}

#[test]
fn folder_names_are_made_safe() {
    assert_eq!(sanitize_folder_name("Shop: A/B"), "Shop_ A_B");
    assert_eq!(sanitize_folder_name("<a>|b?c*d\"e\\f"), "_a__b_c_d_e_f");
    assert_eq!(sanitize_folder_name("name..."), "name");
    assert_eq!(sanitize_folder_name("  name  "), "name");
    assert_eq!(sanitize_folder_name("name. ."), "name.");
    assert_eq!(sanitize_folder_name(""), "unnamed");
    assert_eq!(sanitize_folder_name(" . "), ".");
    assert_eq!(sanitize_folder_name("..."), "unnamed");
    assert_eq!(sanitize_folder_name("   "), "unnamed");
    assert_eq!(sanitize_folder_name("テスト商品"), "テスト商品");
    assert_eq!(sanitize_in_module("a:b"), "a_b");
}

#[test]
fn folder_names_are_cut_to_two_hundred_bytes() {
    assert_eq!(sanitize_folder_name(&"x".repeat(200)), "x".repeat(200));
    assert_eq!(sanitize_folder_name(&"x".repeat(201)), "x".repeat(200));
    assert_eq!(sanitize_folder_name(&"あ".repeat(66)), "あ".repeat(66));
    assert_eq!(sanitize_folder_name(&"あ".repeat(67)), "あ".repeat(66));
    let mixed = format!("ab{}", "あ".repeat(70));
    assert_eq!(sanitize_folder_name(&mixed), format!("ab{}", "あ".repeat(66)));
    assert!(sanitize_folder_name(&"💜".repeat(100)).len() <= 200);
}
