use music_player::search::{escape_like, search_pattern};

fn unescape(s: &str) -> String {
    let mut out = String::new();
    let mut chars = s.chars();
    while let Some(c) = chars.next() {
        if c == '\\' {
            match chars.next() {
                Some(d) => out.push(d),
                None => out.push(c),
            }
        } else {
            out.push(c);
        }
    }
    out
}

#[test]
fn percent_is_escaped() {
    assert_eq!(escape_like("100%"), "100\\%");
}

#[test]
fn underscore_is_escaped() {
    assert_eq!(escape_like("a_b"), "a\\_b");
}

#[test]
fn backslash_is_escaped() {
    assert_eq!(escape_like("c:\\x"), "c:\\\\x");
    assert_eq!(escape_like("\\%"), "\\\\\\%");
}

#[test]
fn plain_text_is_unchanged() {
    assert_eq!(escape_like("Björk – Homogenic"), "Björk – Homogenic");
    assert_eq!(escape_like(""), "");
}

#[test]
fn pattern_surrounds_the_escaped_query() {
    assert_eq!(search_pattern("abc"), "%abc%");
    assert_eq!(search_pattern("50%_off"), "%50\\%\\_off%");
    assert_eq!(search_pattern(""), "%%");
}

#[test]
fn escaping_round_trips() {
    for q in ["100%", "a_b", "\\", "%%__\\\\", "plain", ""] {
        assert_eq!(unescape(&escape_like(q)), q);
    }
}

#[test]
fn escaped_query_has_no_bare_wildcard() {
    let e = escape_like("%_\\x%");
    let mut chars = e.chars();
    while let Some(c) = chars.next() {
        assert!(c != '%' && c != '_');
        if c == '\\' {
            assert!(chars.next().is_some());
        }
    }
}
