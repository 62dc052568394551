use calagopus_panel::ids::{parse_hex_u32, uuid_from_text, uuid_short_of, uuid_short_text, uuid_text};
use calagopus_panel::paths::{extension, file_name, first_index, first_index_in, last_index};
use calagopus_panel::text::{
    bytes_to_hex, char_range, chars_of, contains_char, contains_str, ends_with, i64_to_string, push_decimal,
    push_hex_fixed, push_signed_decimal, push_str, starts_with, string_from_chars, text_eq, trim_end_matches,
    trim_start_matches, u64_to_string,
};

fn chars(s: &str) -> Vec<char> {
    s.chars().collect()
}

#[test]
fn decimal_rendering() {
    assert_eq!(u64_to_string(0), "0");
    assert_eq!(u64_to_string(1234567890), "1234567890");
    assert_eq!(u64_to_string(u64::MAX), "18446744073709551615");
    assert_eq!(i64_to_string(-42), "-42");
    assert_eq!(i64_to_string(i64::MIN), "-9223372036854775808");
    let mut s = String::from("n=");
    push_decimal(&mut s, 7);
    push_str(&mut s, ",");
    push_signed_decimal(&mut s, -7);
    assert_eq!(s, "n=7,-7");
}

#[test]
fn hexadecimal_rendering() {
    assert_eq!(bytes_to_hex(&[0x00, 0x0f, 0xab, 0xff]), "000fabff");
    assert_eq!(bytes_to_hex(&[]), "");
    let mut s = String::new();
    push_hex_fixed(&mut s, 0xbeef, 8);
    assert_eq!(s, "0000beef");
}

#[test]
fn char_helpers() {
    let v = chars_of("héllo");
    assert_eq!(v, vec!['h', 'é', 'l', 'l', 'o']);
    assert_eq!(string_from_chars(&v), "héllo");
    assert_eq!(char_range(&v, 1, 3), vec!['é', 'l']);
    assert!(text_eq("abc", "abc"));
    assert!(!text_eq("abc", "abd"));
    assert!(starts_with(&chars("/api/admin/x"), "/api/admin"));
    assert!(!starts_with(&chars("/api"), "/api/admin"));
    assert!(ends_with(&chars("a.webp"), ".webp"));
    assert!(contains_char(&chars("a/b"), '/'));
    assert!(contains_str(&chars("a/../b"), ".."));
    assert!(!contains_str(&chars("a/./b"), ".."));
    assert!(contains_str(&chars("abc"), ""));
    assert_eq!(trim_end_matches(&chars("path///"), '/'), chars("path"));
    assert_eq!(trim_start_matches(&chars("///path"), '/'), chars("path"));
}

#[test]
fn uuid_text_round_trip() {
    let u: u128 = 0x0123_4567_89ab_cdef_0123_4567_89ab_cdef;
    let t = uuid_text(u);
    assert_eq!(t, "01234567-89ab-cdef-0123-456789abcdef");
    assert_eq!(uuid_from_text(&t), Some(u));
    assert_eq!(uuid_from_text("01234567-89AB-CDEF-0123-456789ABCDEF"), Some(u));
    assert_eq!(uuid_from_text("not a uuid"), None);
}

#[test]
fn short_identifiers() {
    let u: u128 = 0xdead_beef_0000_4000_8000_0000_0000_0001;
    let short = uuid_short_of(u);
    assert_eq!(short, 0xdead_beefu32 as i32);
    assert_eq!(uuid_short_text(short), "deadbeef");
    assert_eq!(uuid_short_text(1), "00000001");
    assert_eq!(parse_hex_u32(&chars("deadbeef")), Some(0xdead_beef));
    assert_eq!(parse_hex_u32(&chars("DEADBEEF")), Some(0xdead_beef));
    assert_eq!(parse_hex_u32(&chars("+ff")), Some(255));
    assert_eq!(parse_hex_u32(&chars("")), None);
    assert_eq!(parse_hex_u32(&chars("+")), None);
    assert_eq!(parse_hex_u32(&chars("xyz")), None);
    assert_eq!(parse_hex_u32(&chars("100000000")), None);
}

#[test]
fn path_components() {
    assert_eq!(file_name("a/b/c.txt"), "c.txt");
    assert_eq!(file_name("c.txt"), "c.txt");
    assert_eq!(extension("a/b/c.tar.gz"), Some("gz".to_string()));
    assert_eq!(extension("a/b/.bashrc"), None);
    assert_eq!(extension("a/b/noext"), None);
    assert_eq!(extension(".."), None);
    assert_eq!(extension("archive.zip"), Some("zip".to_string()));
    let v = chars("a/b/c");
    assert_eq!(last_index(&v, '/'), Some(3));
    assert_eq!(first_index(&v, '/'), Some(1));
    assert_eq!(first_index_in(&v, 2, '/'), Some(3));
    assert_eq!(first_index(&v, 'x'), None);
}

#[test]
fn uuid_text_forms() {
    let u = 0x0123_4567_89ab_cdef_0123_4567_89ab_cdef_u128;
    assert_eq!(uuid_from_text("0123456789abcdef0123456789ABCDEF"), Some(u));
    assert_eq!(uuid_from_text("{01234567-89ab-cdef-0123-456789abcdef}"), Some(u));
    assert_eq!(uuid_from_text("URN:uuid:01234567-89ab-cdef-0123-456789abcdef"), Some(u));
    assert_eq!(uuid_from_text("urn:uuix:01234567-89ab-cdef-0123-456789abcdef"), None);
    assert_eq!(uuid_from_text("(01234567-89ab-cdef-0123-456789abcdef)"), None);
    assert_eq!(uuid_from_text("01234567+89ab-cdef-0123-456789abcdef"), None);
    assert_eq!(uuid_from_text("0123456789abcdef0123456789abcdeg"), None);
    assert_eq!(uuid_from_text("Survival"), None);
}
