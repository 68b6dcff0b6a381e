use sdshout::pattern::matches_name;
use sdshout::text::str_eq;

#[test]
fn star_matches_every_name() {
    assert!(matches_name("*", ""));
    assert!(matches_name("*", "sshd"));
    assert!(matches_name("*", "*"));
    assert!(matches_name("*", "postfix.service"));
    assert!(matches_name("*", "grüße.service"));
}

#[test]
fn trailing_star_matches_by_prefix() {
    assert!(matches_name("foo*", "foo"));
    assert!(matches_name("foo*", "foobar"));
    assert!(!matches_name("foo*", "fo"));
    assert!(!matches_name("foo*", "xfoo"));
}

#[test]
fn trailing_star_edge_cases() {
    assert!(matches_name("foo*", "foo*"));
    assert!(!matches_name("foo*", ""));
    assert!(!matches_name("foo*", "fOo"));
    assert!(!matches_name("foo*", "Foobar"));
    assert!(matches_name("**", "*"));
    assert!(matches_name("**", "*x"));
    assert!(!matches_name("**", "x"));
    assert!(!matches_name("**", ""));
}

#[test]
fn other_patterns_match_by_equality() {
    assert!(matches_name("postfix", "postfix"));
    assert!(!matches_name("postfix", "postfix.service"));
    assert!(!matches_name("postfix", "postfi"));
    assert!(!matches_name("postfix", "Postfix"));
    assert!(!matches_name("postfix", ""));
    assert!(matches_name("", ""));
    assert!(!matches_name("", "a"));
}

#[test]
fn star_elsewhere_is_literal() {
    assert!(matches_name("*foo", "*foo"));
    assert!(!matches_name("*foo", "xfoo"));
    assert!(!matches_name("*foo", "foo"));
    assert!(matches_name("f*o", "f*o"));
    assert!(!matches_name("f*o", "foo"));
    assert!(matches_name("f*o*", "f*obar"));
    assert!(!matches_name("f*o*", "fxobar"));
}

#[test]
fn no_classes_and_no_expressions() {
    assert!(!matches_name("fo?", "foo"));
    assert!(!matches_name("fo[o]", "foo"));
    assert!(!matches_name("fo.", "foo"));
    assert!(!matches_name("foo.*", "foobar"));
    assert!(matches_name("foo.*", "foo.bar"));
}

#[test]
fn patterns_beyond_ascii() {
    assert!(matches_name("grüße*", "grüße.service"));
    assert!(!matches_name("grüße*", "grusse.service"));
    assert!(matches_name("é*", "été"));
    // "é" is c3 a9 and "è" is c3 a8: one byte in common, no character.
    assert!(!matches_name("é*", "è"));
    assert!(!matches_name("é", "e"));
    assert!(matches_name("日本*", "日本語"));
    assert!(!matches_name("日本語*", "日本"));
    // U+FF0A is a star of another kind and ends in another byte.
    assert!(!matches_name("foo＊", "foobar"));
    assert!(matches_name("foo＊", "foo＊"));
}

#[test]
fn equal_strings() {
    assert!(str_eq("", ""));
    assert!(str_eq("abc", "abc"));
    assert!(!str_eq("abc", "abd"));
    assert!(!str_eq("abc", "ab"));
    assert!(!str_eq("ab", "abc"));
    assert!(!str_eq("", "a"));
    assert!(str_eq("naïve", "naïve"));
    assert!(!str_eq("naïve", "naive"));
}
