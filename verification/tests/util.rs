use elba::util::hash::hexify_hash as hexify;
use elba::util::hexify_hash;
use elba::util::text::{cut_str, decimal_string, find_char, has_char, join_path, same_text};

#[test]
fn hexify_hash_writes_two_lower_case_digits_per_byte() {
    assert_eq!(hexify_hash(&[]), "");
    assert_eq!(hexify_hash(&[0x00, 0x0a, 0xab, 0xf0, 0xff]), "000aabf0ff");
    assert_eq!(hexify(&[0x12, 0x34]), "1234");
}

#[test]
fn hexify_hash_covers_every_byte() {
    for b in 0..=255u8 {
        assert_eq!(hexify_hash(&[b]), format!("{:02x}", b));
    }
}

#[test]
fn decimal_string_writes_base_ten() {
    assert_eq!(decimal_string(0), "0");
    assert_eq!(decimal_string(7), "7");
    assert_eq!(decimal_string(10), "10");
    assert_eq!(decimal_string(119), "119");
    assert_eq!(decimal_string(u64::MAX), "18446744073709551615");
}

#[test]
fn find_char_gives_the_first_place_or_the_length() {
    assert_eq!(find_char("abc/def/g", '/'), 3);
    assert_eq!(find_char("/abc", '/'), 0);
    assert_eq!(find_char("abc", '/'), 3);
    assert_eq!(find_char("", '/'), 0);
    assert_eq!(find_char("日本/語", '/'), 2);
}

#[test]
fn cut_str_cuts_at_the_first_separator() {
    assert_eq!(cut_str("abc/def/g", '/'), Some(("abc", "def/g")));
    assert_eq!(cut_str("/", '/'), Some(("", "")));
    assert_eq!(cut_str("abc/", '/'), Some(("abc", "")));
    assert_eq!(cut_str("abc", '/'), None);
    assert_eq!(cut_str("", '/'), None);
    assert_eq!(cut_str("grüße+日本語", '+'), Some(("grüße", "日本語")));
}

#[test]
fn has_char_goes_by_characters() {
    assert!(has_char("a/b", '/'));
    assert!(!has_char("ab", '/'));
    assert!(has_char("grüße", 'ß'));
    assert!(!has_char("", '/'));
}

#[test]
fn same_text_compares_whole_texts() {
    assert!(same_text("dir", "dir"));
    assert!(same_text("", ""));
    assert!(!same_text("dir", "di"));
    assert!(!same_text("dir", "dis"));
    assert!(!same_text("dir", "Dir"));
}

#[test]
fn join_path_puts_a_slash_between() {
    assert_eq!(join_path("/cache", "src"), "/cache/src");
    assert_eq!(join_path("cache/src", "a_b-00"), "cache/src/a_b-00");
}
