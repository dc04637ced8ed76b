use wan2gp_client::text::replace_backslashes;
use wan2gp_client::text::str_eq;
use wan2gp_client::text::trim_end_char;
use wan2gp_client::text::u64_to_decimal;

#[test]
fn decimal_notation() {
    assert_eq!(u64_to_decimal(0), "0");
    assert_eq!(u64_to_decimal(7), "7");
    assert_eq!(u64_to_decimal(10), "10");
    assert_eq!(u64_to_decimal(404), "404");
    assert_eq!(u64_to_decimal(u64::MAX), u64::MAX.to_string());
}

#[test]
fn string_equality() {
    assert!(str_eq("complete", "complete"));
    assert!(!str_eq("complete", "completed"));
    assert!(!str_eq("a", "b"));
    assert!(str_eq("", ""));
    assert!(str_eq("é", "é"));
}

#[test]
fn trailing_characters_removed() {
    assert_eq!(trim_end_char("a//", '/'), "a");
    assert_eq!(trim_end_char("/a/b", '/'), "/a/b");
    assert_eq!(trim_end_char("", '/'), "");
}

#[test]
fn backslashes_become_slashes() {
    assert_eq!(replace_backslashes("C:\\Users\\me\\x.mp4"), "C:/Users/me/x.mp4");
    assert_eq!(replace_backslashes("/tmp/x.mp4"), "/tmp/x.mp4");
    assert_eq!(replace_backslashes(""), "");
}
