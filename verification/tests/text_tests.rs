use jornais::text::{resolve_link, str_has_prefix, trim};

#[test]
fn trim_removes_surrounding_whitespace() {
    assert_eq!(trim("  hello world  "), "hello world");
    assert_eq!(trim("\t\n hello \r\n"), "hello");
    assert_eq!(trim("hello"), "hello");
}

#[test]
fn trim_of_all_whitespace_is_empty() {
    assert_eq!(trim(""), "");
    assert_eq!(trim("   \t\r\n  "), "");
}

#[test]
fn trim_keeps_inner_whitespace() {
    assert_eq!(trim(" a  b "), "a  b");
}

#[test]
fn prefix_test_matches_initial_segment() {
    assert!(str_has_prefix("http://site/a", "http://"));
    assert!(str_has_prefix("abc", ""));
    assert!(str_has_prefix("abc", "abc"));
    assert!(!str_has_prefix("abc", "abcd"));
    assert!(!str_has_prefix("https://site", "http://"));
}

#[test]
fn relative_links_get_the_prefix() {
    assert_eq!(resolve_link("/notas/1", "http://infobae.com"), "http://infobae.com/notas/1");
    assert_eq!(resolve_link("nota.html", "http://x.test/"), "http://x.test/nota.html");
}

#[test]
fn absolute_links_are_kept() {
    assert_eq!(resolve_link("http://site/a", "http://other.test"), "http://site/a");
    assert_eq!(resolve_link("https://site/a", "http://other.test"), "https://site/a");
}
