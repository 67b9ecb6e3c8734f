use mmorpg_fleet::numbers::{
    parse_u16, parse_up_to, parse_usize, parse_usize_or_zero, to_decimal, to_signed_decimal,
};
use mmorpg_fleet::store::{
    host_of_key, make_host_key, make_server_key, make_session_key, server_of_key, HashWrite,
    TextMap,
};
use mmorpg_fleet::text::{
    keep_non_empty, split, split_lines, split_words, strip_prefix, strip_prefixes, text_before,
    text_behind, trim, Separator,
};

fn texts(list: &[&str]) -> Vec<String> {
    list.iter().map(|s| s.to_string()).collect()
}

#[test]
fn trims_like_the_standard_library() {
    for s in ["", " ", "a", "  a b\t\n", "\u{3000}x\u{2003}", "\u{200b}x", "\r\n\u{85}y\u{a0}", "é "] {
        assert_eq!(trim(s), s.trim());
    }
}

#[test]
fn every_white_space_character_is_trimmed() {
    for n in 0..0x11_0000u32 {
        if let Some(c) = char::from_u32(n) {
            if c.is_whitespace() || n < 0x300 {
                let s = format!("{}x", c);
                assert_eq!(trim(&s), s.trim());
            }
        }
    }
}

#[test]
fn splits_at_a_character() {
    assert_eq!(split("a,b,,c", Separator::Char(',')), texts(&["a", "b", "", "c"]));
    assert_eq!(split("", Separator::Char(',')), texts(&[""]));
    assert_eq!(split(",", Separator::Char(',')), texts(&["", ""]));
}

#[test]
fn splits_into_words_and_lines() {
    assert_eq!(split_words("  spawn 3\tbob "), texts(&["spawn", "3", "bob"]));
    assert_eq!(split_words("   "), texts(&[]));
    for s in ["", "a", "a\n", "a\r\nb", "a\r", "\n\n", "a\r\n\r\nb\r"] {
        let expected: Vec<String> = s.lines().map(String::from).collect();
        assert_eq!(split_lines(s), expected);
    }
    assert_eq!(keep_non_empty(&texts(&["", "x", "", "y"])), texts(&["x", "y"]));
}

#[test]
fn strips_prefixes() {
    assert_eq!(strip_prefix("server:ab", "server:"), Some("ab".to_string()));
    assert_eq!(strip_prefix("server", "server:"), None);
    assert_eq!(strip_prefix("host:ab", "server:"), None);
    assert_eq!(strip_prefixes("xxay", "x"), "ay");
    assert_eq!(strip_prefixes("ay", "x"), "ay");
}

#[test]
fn cuts_at_a_character() {
    assert_eq!(text_before("a:b:c", ':'), "a");
    assert_eq!(text_before("abc", ':'), "abc");
    assert_eq!(text_behind("a@b@c", '@'), "b@c");
    assert_eq!(text_behind("abc", '@'), "abc");
}

#[test]
fn numbers_are_read_like_the_standard_library() {
    for s in ["", "+", "-", "0", "00012", "+7", "-1", "65535", "65536", " 1", "1 ", "1a", "99999999999999999999999"] {
        assert_eq!(parse_u16(s), s.parse::<u16>().ok());
        assert_eq!(parse_usize(s), s.parse::<usize>().ok());
        assert_eq!(parse_up_to(s, u64::MAX), s.parse::<u64>().ok());
    }
    assert_eq!(parse_up_to("18446744073709551615", u64::MAX), Some(u64::MAX));
    assert_eq!(parse_up_to("18446744073709551616", u64::MAX), None);
    assert_eq!(parse_usize_or_zero(Some("12".to_string())), 12);
    assert_eq!(parse_usize_or_zero(Some("x".to_string())), 0);
    assert_eq!(parse_usize_or_zero(None), 0);
}

#[test]
fn numbers_are_written_in_decimal() {
    for n in [0u64, 7, 10, 99, 100, 65535, u64::MAX] {
        assert_eq!(to_decimal(n), n.to_string());
        assert_eq!(parse_up_to(&to_decimal(n), u64::MAX), Some(n));
    }
    for n in [0i64, -1, 42, i64::MIN, i64::MAX] {
        assert_eq!(to_signed_decimal(n), n.to_string());
    }
}

#[test]
fn the_last_value_of_a_name_counts() {
    let mut map = TextMap::new();
    assert!(map.is_empty());
    assert_eq!(map.get("a"), None);
    map.set("a".to_string(), "1".to_string());
    map.set("b".to_string(), "2".to_string());
    map.set("a".to_string(), "3".to_string());
    assert!(!map.is_empty());
    assert_eq!(map.get("a"), Some("3".to_string()));
    assert_eq!(map.get("b"), Some("2".to_string()));
}

#[test]
fn keys_lead_back_to_their_names() {
    assert_eq!(make_server_key("x"), "server:x");
    assert_eq!(make_host_key("10.0.0.1"), "host:10.0.0.1");
    assert_eq!(make_session_key("p"), "session:p");
    assert_eq!(server_of_key("server:x"), Some("x".to_string()));
    assert_eq!(server_of_key("host:x"), None);
    assert_eq!(host_of_key("host:x"), Some("x".to_string()));
    assert_eq!(host_of_key("session:x"), None);
}

#[test]
fn writes_collect_fields_in_order() {
    let mut write = HashWrite::new("k".to_string(), 5);
    write.set("a", "1");
    write.set("b", "2");
    assert_eq!(write.key, "k");
    assert_eq!(write.ttl_secs, 5);
    assert_eq!(
        write.fields,
        vec![("a".to_string(), "1".to_string()), ("b".to_string(), "2".to_string())]
    );
}
