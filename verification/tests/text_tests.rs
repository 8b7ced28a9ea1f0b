use vimplugins::text::find_char_in;
use vimplugins::text::normalize_name;
use vimplugins::text::trim_ws;

#[test]
fn trim_removes_trailing_newline() {
    assert_eq!(trim_ws("deadbeef\n"), "deadbeef");
}

#[test]
fn trim_removes_both_ends() {
    assert_eq!(trim_ws("\t x \r\n"), "x");
}

#[test]
fn trim_of_empty_is_empty() {
    assert_eq!(trim_ws(""), "");
}

#[test]
fn trim_keeps_clean_text() {
    assert_eq!(trim_ws("abc"), "abc");
}

#[test]
fn trim_keeps_inner_whitespace() {
    assert_eq!(trim_ws("  a b  "), "a b");
}

#[test]
fn normalize_replaces_dot() {
    assert_eq!(normalize_name("foo.bar"), "foo-bar");
}

#[test]
fn normalize_replaces_every_dot() {
    assert_eq!(normalize_name("a.b.c"), "a-b-c");
}

#[test]
fn normalize_keeps_plain_names() {
    assert_eq!(normalize_name("plain-name_1"), "plain-name_1");
}

#[test]
fn find_char_first_hit() {
    assert_eq!(find_char_in("a/b/c", '/'), Some(1));
}

#[test]
fn find_char_missing() {
    assert_eq!(find_char_in("abc", '/'), None);
}
