use folderbot_chat::text::{
    chars_of, find_char, join3, join5, parse_i32, parse_i64, replace, same, show_bool, show_i64, show_u64,
    trim, white_space,
};

#[test]
fn white_space_is_that_of_unicode() {
    for n in 0..=0x10ffffu32 {
        if let Some(c) = char::from_u32(n) {
            assert_eq!(white_space(c), c.is_whitespace(), "{:x}", n);
        }
    }
}

#[test]
fn trim_takes_white_space_from_both_ends() {
    assert_eq!(trim("  hello there \r\n"), "hello there");
    assert_eq!(trim(""), "");
    assert_eq!(trim(" \t\r\n"), "");
    assert_eq!(trim("\u{2003}é\u{a0}"), "é");
    for s in ["a", " a", "a ", "\u{200b}a", "a\nb\n", "\u{85}x\u{85}"] {
        assert_eq!(trim(s), s.trim());
    }
}

#[test]
fn trimming_twice_trims_once() {
    for s in ["  x ", "", "\r\n", "y", "\u{3000}z z\t"] {
        assert_eq!(trim(&trim(s)), trim(s));
    }
}

#[test]
fn replace_fills_every_place() {
    assert_eq!(replace("{} rolled a 1. Clap for {}.", "{}", "Ann"), "Ann rolled a 1. Clap for Ann.");
    assert_eq!(replace("no place", "{}", "Ann"), "no place");
    assert_eq!(replace("aaa", "aa", "b"), "ba");
    assert_eq!(replace("{ur}", "{ur}", "{ur}{ur}"), "{ur}{ur}");
    assert_eq!(replace("", "x", "y"), "");
    for (s, p, t) in [("abcabc", "bc", ""), ("éé{N}é", "{N}", "7"), ("ababab", "aba", "x"), ("{{N}}", "{N}", "n")] {
        assert_eq!(replace(s, p, t), s.replace(p, t));
    }
}

#[test]
fn find_char_finds_the_first() {
    assert_eq!(find_char("one two three", ' '), 3);
    assert_eq!(find_char("é|b|c", '|'), 1);
    assert_eq!(find_char("none", ' '), 4);
    assert_eq!(find_char("", ' '), 0);
}

#[test]
fn integers_are_shown_in_decimal() {
    for n in [0u64, 7, 10, 250, 31626, 18446744073709551615] {
        assert_eq!(show_u64(n), n.to_string());
    }
    for n in [0i64, -1, 42, -250, i64::MAX, i64::MIN] {
        assert_eq!(show_i64(n), n.to_string());
    }
    assert_eq!(show_bool(true), "true");
    assert_eq!(show_bool(false), "false");
}

#[test]
fn integers_are_read_as_the_standard_library_does() {
    for s in [
        "0", "7", "+7", "-7", "", "+", "-", "+-1", "--1", " 1", "1 ", "1a", "a", "007", "-0", "250",
        "2147483647", "2147483648", "-2147483648", "-2147483649", "9223372036854775807",
        "9223372036854775808", "-9223372036854775808", "-9223372036854775809",
        "99999999999999999999999999999999999999999999999999", "00000000000000000000000000000000000000000001",
        "18446744073709551616", "18446744073709551617", "1.5", "٣", "1_000",
    ] {
        assert_eq!(parse_i64(s), s.parse::<i64>().ok(), "{}", s);
        assert_eq!(parse_i32(s), s.parse::<i32>().ok(), "{}", s);
    }
}

#[test]
fn a_shown_integer_is_read_back() {
    for n in [0i64, 5, -5, 1234567890123, i64::MAX, i64::MIN] {
        assert_eq!(parse_i64(&show_i64(n)), Some(n));
    }
}

#[test]
fn texts_are_compared_taken_apart_and_joined() {
    assert!(same("bot ", "bot "));
    assert!(!same("bot ", "bot"));
    assert_eq!(chars_of("aé!"), vec!['a', 'é', '!']);
    assert_eq!(join3("a", "", "c"), "ac");
    assert_eq!(join5("1", "2", "3", "4", "5"), "12345");
}
