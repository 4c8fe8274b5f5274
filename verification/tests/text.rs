use nix_store_mesh::text::{
    chars_of, cut, decimal_text, ends_with, find, find_last, has_char, join, starts_with, trim,
    trim_slashes,
};

#[test]
fn digits() {
    for n in [0, 7, 9, 10, 99, 100, 1234567890, u64::MAX] {
        assert_eq!(decimal_text(n), format!("{}", n));
    }
}

#[test]
fn trimming_agrees_on_every_character() {
    for code in 0..0x11_0000u32 {
        if let Some(c) = char::from_u32(code) {
            if c.is_whitespace() || code % 997 == 0 {
                let padded = format!("{}x{}", c, c);
                assert_eq!(trim(&padded), padded.trim());
            }
        }
    }
    assert_eq!(trim(" \t\u{85}\u{2028}"), "");
    assert_eq!(trim(" a b "), "a b");
}

#[test]
fn white_space_is_what_it_is_said_to_be() {
    let listed = |c: char| {
        matches!(c,
            '\u{9}'..='\u{d}' | '\u{20}' | '\u{85}' | '\u{a0}' | '\u{1680}' |
            '\u{2000}'..='\u{200a}' | '\u{2028}' | '\u{2029}' | '\u{202f}' | '\u{205f}' | '\u{3000}')
    };
    for code in 0..0x11_0000u32 {
        if let Some(c) = char::from_u32(code) {
            assert_eq!(c.is_whitespace(), listed(c));
        }
    }
}

#[test]
fn slashes_at_the_front() {
    assert_eq!(trim_slashes("//a/b/"), "a/b/");
    assert_eq!(trim_slashes("a"), "a");
    assert_eq!(trim_slashes("///"), "");
}

#[test]
fn searches() {
    assert_eq!(chars_of("a\u{e9}"), vec!['a', '\u{e9}']);
    assert_eq!(cut("a\u{e9}bc", 1, 3), "\u{e9}b");
    assert!(starts_with("abc", "ab") && starts_with("abc", "") && !starts_with("a", "ab"));
    assert!(ends_with("abc", "bc") && ends_with("abc", "") && !ends_with("c", "bc"));
    assert_eq!(find("\u{e9}-a-b", '-'), Some(1));
    assert_eq!(find_last("\u{e9}-a-b", '-'), Some(3));
    assert_eq!(find("ab", '-'), None);
    assert_eq!(find_last("ab", '-'), None);
    assert!(has_char("a-b", '-') && !has_char("ab", '-'));
}

#[test]
fn joins() {
    let parts = |list: &[&str]| list.iter().map(|s| s.to_string()).collect::<Vec<String>>();
    assert_eq!(join(&parts(&[]), " "), "");
    assert_eq!(join(&parts(&["a"]), " "), "a");
    assert_eq!(join(&parts(&["a", "", "b"]), ", "), "a, , b");
}
