use movie_mover::patterns::{capture_groups, find_match, is_match, replace_all_matches, replace_first_match, split_by};
use movie_mover::text::{char_is_white_space, decimal_string, join_path, parse_u32_text, sanitize, trim_white_space, zero_pad};
use movie_mover::utils::{u8_mod, usize_clamp, CharWise};

#[test]
fn sanitize_replaces_every_slash() {
    assert_eq!(sanitize("AC/DC/Live".to_string()), "AC+DC+Live");
    assert_eq!(sanitize("no slash".to_string()), "no slash");
    assert_eq!(sanitize(String::new()), "");
}

#[test]
fn sanitize_keeps_length_and_leaves_no_slash() {
    let input = "a/b//c/".to_string();
    let out = sanitize(input.clone());
    assert_eq!(out.chars().count(), input.chars().count());
    assert!(!out.contains('/'));
}

#[test]
fn decimal_string_writes_without_leading_zeros() {
    assert_eq!(decimal_string(0), "0");
    assert_eq!(decimal_string(7), "7");
    assert_eq!(decimal_string(1234), "1234");
    assert_eq!(decimal_string(u32::MAX), "4294967295");
}

#[test]
fn parse_u32_text_reads_like_str_parse() {
    assert_eq!(parse_u32_text("05"), Some(5));
    assert_eq!(parse_u32_text("+7"), Some(7));
    assert_eq!(parse_u32_text("4294967295"), Some(u32::MAX));
    assert_eq!(parse_u32_text("4294967296"), None);
    assert_eq!(parse_u32_text(""), None);
    assert_eq!(parse_u32_text("+"), None);
    assert_eq!(parse_u32_text("12a"), None);
    assert_eq!(parse_u32_text("-1"), None);
}

#[test]
fn parse_of_decimal_round_trips() {
    for n in [0u32, 1, 9, 10, 99, 100, 65535, 4_000_000_000, u32::MAX] {
        assert_eq!(parse_u32_text(&decimal_string(n)), Some(n));
        assert_eq!(decimal_string(n), n.to_string());
    }
}

#[test]
fn zero_pad_pads_to_width() {
    assert_eq!(zero_pad("5", 2), "05");
    assert_eq!(zero_pad("12", 2), "12");
    assert_eq!(zero_pad("123", 2), "123");
    assert_eq!(zero_pad("", 2), "00");
}

#[test]
fn trim_white_space_removes_both_ends() {
    assert_eq!(trim_white_space("  The Matrix \t"), "The Matrix");
    assert_eq!(trim_white_space("   "), "");
    assert_eq!(trim_white_space("a b"), "a b");
    assert_eq!(trim_white_space("\u{3000}x\u{a0}"), "x");
}

#[test]
fn white_space_follows_unicode() {
    assert!(char_is_white_space(' '));
    assert!(char_is_white_space('\n'));
    assert!(char_is_white_space('\u{2003}'));
    assert!(!char_is_white_space('a'));
    assert!(!char_is_white_space('_'));
}

#[test]
fn join_path_joins_like_path_join() {
    assert_eq!(join_path("", "/"), "/");
    assert_eq!(join_path("/", "home"), "/home");
    assert_eq!(join_path("/home", "user"), "/home/user");
    assert_eq!(join_path("/home/", "user"), "/home/user");
    assert_eq!(join_path("/home", "/abs"), "/abs");
    assert_eq!(join_path("/storage", ""), "/storage/");
    assert_eq!(join_path("", "rel"), "rel");
}

#[test]
fn replace_all_matches_replaces_each_match() {
    assert_eq!(replace_all_matches("a", "banana", "o"), "bonono");
    assert_eq!(replace_all_matches("x", "banana", "o"), "banana");
}

#[test]
fn replace_first_match_replaces_only_the_first() {
    assert_eq!(replace_first_match("a", "banana", "o"), "bonana");
    assert_eq!(replace_first_match("\\((19\\d\\d|20\\d\\d)\\)$", "Show (2008)", ""), "Show ");
}

#[test]
fn invalid_pattern_matches_nothing() {
    assert_eq!(replace_all_matches("(", "a(b", "x"), "a(b");
    assert_eq!(replace_first_match("(", "a(b", "x"), "a(b");
    assert_eq!(split_by("(", "a(b"), vec!["a(b".to_string()]);
    assert_eq!(find_match("(", "a(b"), None);
    assert!(!is_match("(", "a(b"));
    assert_eq!(capture_groups("(", "a(b"), None);
}

#[test]
fn split_by_splits_between_matches() {
    assert_eq!(split_by("\\.|\\s", "a.b c"), vec!["a", "b", "c"]);
    assert_eq!(split_by("\\.", "a..b"), vec!["a", "", "b"]);
}

#[test]
fn find_match_and_is_match() {
    assert_eq!(find_match("19\\d\\d|20\\d\\d", "Film.1999.2003"), Some("1999".to_string()));
    assert_eq!(find_match("19\\d\\d|20\\d\\d", "Film"), None);
    assert!(is_match("^[sS]\\d\\d*$", "S02"));
    assert!(!is_match("^[sS]\\d\\d*$", "S02E01"));
}

#[test]
fn capture_groups_lists_every_group() {
    let caps = capture_groups("[sS](\\d\\d*)\\s*[eE](\\d\\d*)|(\\d\\d*)x(\\d\\d*)", "Show.1x02").unwrap();
    assert_eq!(caps.len(), 5);
    assert_eq!(caps[0], Some("1x02".to_string()));
    assert_eq!(caps[1], None);
    assert_eq!(caps[2], None);
    assert_eq!(caps[3], Some("1".to_string()));
    assert_eq!(caps[4], Some("02".to_string()));
    assert_eq!(capture_groups("(\\d)", "abc"), None);
}

#[test]
fn usize_clamp_clamps() {
    assert_eq!(usize_clamp(0, -3, 5), 0);
    assert_eq!(usize_clamp(0, 10, 5), 5);
    assert_eq!(usize_clamp(0, 3, 5), 3);
    assert_eq!(usize_clamp(2, 2, 5), 2);
    assert_eq!(usize_clamp(0, 5, 5), 5);
}

#[test]
fn u8_mod_wraps_around() {
    assert_eq!(u8_mod(-1, 2), 1);
    assert_eq!(u8_mod(2, 2), 0);
    assert_eq!(u8_mod(5, 4), 1);
    assert_eq!(u8_mod(-1, 4), 3);
    assert_eq!(u8_mod(0, 4), 0);
}

#[test]
fn char_wise_counts_characters() {
    let s = "héllo".to_string();
    assert_eq!(s.char_len(), 5);
    assert_eq!(s.len(), 6);
}

#[test]
fn char_wise_insert_and_remove() {
    let mut s = "héllo".to_string();
    s.char_insert(2, 'X');
    assert_eq!(s, "héXllo");
    s.char_insert(100, '!');
    assert_eq!(s, "héXllo!");
    s.char_remove(1);
    assert_eq!(s, "hXllo!");
    s.char_remove(100);
    assert_eq!(s, "hXllo!");
}

#[test]
fn char_wise_split_at() {
    let s = "héllo".to_string();
    assert_eq!(s.char_split_at(1), ("h".to_string(), "é".to_string(), "llo".to_string()));
    assert_eq!(s.char_split_at(4), ("héll".to_string(), "o".to_string(), String::new()));
    assert_eq!(s.char_split_at(9), ("héllo".to_string(), String::new(), String::new()));
}
