use iloader::numbers::{number_text, parse_number, signed_number_text};
use iloader::text::{
    characters, concat2, concat3, contains_text, join_texts, same_text, split_text, starts_with,
    text_after_last, text_before_last, trim_text, white_space,
};

#[test]
fn characters_are_those_of_the_text() {
    assert_eq!(characters("añ📱"), vec!['a', 'ñ', '📱']);
    assert_eq!(characters(""), Vec::<char>::new());
}

#[test]
fn texts_are_put_together() {
    assert_eq!(concat2("a", "b"), "ab");
    assert_eq!(concat3("…", "", "x"), "…x");
}

#[test]
fn same_text_is_equality() {
    assert!(same_text("ñ", "ñ"));
    assert!(!same_text("a", "ab"));
    assert!(!same_text("a", "A"));
}

#[test]
fn starts_with_takes_whole_prefixes() {
    for (s, p) in [("http://x", "http"), ("htt", "http"), ("", ""), ("x", ""), ("", "x"), ("ab", "b")] {
        assert_eq!(starts_with(s, p), s.starts_with(p), "{s:?} {p:?}");
    }
}

#[test]
fn contains_text_finds_every_position() {
    for (s, p) in [
        ("com.SideStore.SideStore.ABC", "SideStore"),
        ("SideStor", "SideStore"),
        ("aab", "ab"),
        ("abc", ""),
        ("", ""),
        ("", "a"),
        ("khcrysalis.Feather", "crysalis.feather"),
    ] {
        assert_eq!(contains_text(s, p), s.contains(p), "{s:?} {p:?}");
    }
}

#[test]
fn splitting_keeps_empty_pieces() {
    for s in ["", ",", "1", "1,2", "1,,3", ",1,", "a,ñ,📱"] {
        let expected: Vec<String> = s.split(',').map(|x| x.to_string()).collect();
        assert_eq!(split_text(s, ','), expected, "{s:?}");
    }
}

#[test]
fn joining_undoes_splitting() {
    for s in ["", ",", "1,,3", "17.4,x"] {
        assert_eq!(join_texts(&split_text(s, ','), ","), s);
    }
    let keys = vec!["a".to_string(), "b".to_string(), "c".to_string()];
    assert_eq!(join_texts(&keys, ", "), "a, b, c");
    assert_eq!(join_texts(&Vec::new(), ", "), "");
}

#[test]
fn last_separator_divides_a_text() {
    assert_eq!(text_after_last("https://x/y/App.ipa", '/'), "App.ipa");
    assert_eq!(text_before_last("https://x/y/App.ipa", '/'), "https://x/y");
    assert_eq!(text_after_last("App.ipa", '/'), "App.ipa");
    assert_eq!(text_before_last("App.ipa", '/'), "");
    assert_eq!(text_after_last("dir/", '/'), "");
    assert_eq!(text_before_last("/x", '/'), "");
}

#[test]
fn white_space_is_that_of_char() {
    for n in 0..=0x10ffffu32 {
        if let Some(c) = char::from_u32(n) {
            assert_eq!(white_space(c), c.is_whitespace(), "{n:x}");
        }
    }
}

#[test]
fn trimming_takes_white_space_at_both_ends() {
    for s in ["", "  ", "123456\n", "\t 1 2 \r\n", "\u{a0}x\u{3000}", "x"] {
        assert_eq!(trim_text(s), s.trim(), "{s:?}");
    }
}

#[test]
fn numbers_are_read_as_by_parse() {
    for s in [
        "", "0", "1", "007", "+5", "+", "-1", "-0", "4294967295", "4294967296", "99999999999999999999",
        "1a", " 1", "1 ", "１", "++1", "1+",
    ] {
        assert_eq!(parse_number(s, u32::MAX as u64), s.parse::<u32>().ok().map(|n| n as u64), "{s:?}");
        assert_eq!(parse_number(s, u64::MAX), s.parse::<u64>().ok(), "{s:?}");
    }
    assert_eq!(parse_number("18446744073709551615", u64::MAX), Some(u64::MAX));
    assert_eq!(parse_number("18446744073709551616", u64::MAX), None);
    assert_eq!(parse_number("10", 9), None);
    assert_eq!(parse_number("0", 0), Some(0));
}

#[test]
fn numbers_are_written_as_by_display() {
    for n in [0, 1, 9, 10, 99, 100, 1234567890, u64::MAX] {
        assert_eq!(number_text(n), n.to_string());
        assert_eq!(parse_number(&number_text(n), u64::MAX), Some(n));
    }
    for n in [0, 7, -1, -10, i64::MAX, i64::MIN] {
        assert_eq!(signed_number_text(n), n.to_string());
    }
}
