use lockin::text::{
    at_most, cut_after_first, cut_after_last, cut_before_first, decimal_u16, eq_ignore_ascii_case,
    find, is_white_space, parse_port, replace, replace_once, rfind, same, split, strip_prefix,
    to_ascii_lowercase, to_lower_char, trim,
};

const SAMPLES: [&str; 16] = [
    "",
    " ",
    "a",
    "A",
    "ab",
    "abab",
    "aaaa",
    "Zed",
    "zed",
    " \t mixed \n",
    "\u{3000}wide\u{2003}",
    "\u{e9}t\u{e9}",
    "\u{10000}",
    "\u{ffff}",
    "a/b/c",
    "//",
];

#[test]
fn white_space_is_that_of_every_character() {
    for code in 0..=0x10ffffu32 {
        if let Some(c) = char::from_u32(code) {
            assert_eq!(is_white_space(c), c.is_whitespace());
            assert_eq!(to_lower_char(c), c.to_ascii_lowercase());
        }
    }
}

#[test]
fn trims_like_a_string() {
    for text in SAMPLES {
        assert_eq!(trim(text), text.trim());
        assert_eq!(trim(trim(text)), trim(text));
    }
    assert_eq!(trim("  /Game/Maps  x "), "/Game/Maps  x");
}

#[test]
fn folds_only_ascii_letters() {
    assert_eq!(to_ascii_lowercase("ASCENT \u{c9}"), "ascent \u{c9}");
    assert!(eq_ignore_ascii_case("Ascent", "aSCENT"));
    assert!(!eq_ignore_ascii_case("\u{c9}", "\u{e9}"));
    assert!(!eq_ignore_ascii_case("a", "ab"));
    for a in SAMPLES {
        for b in SAMPLES {
            assert_eq!(eq_ignore_ascii_case(a, b), a.eq_ignore_ascii_case(b));
            assert_eq!(same(a, b), a == b);
        }
        assert!(eq_ignore_ascii_case(a, &to_ascii_lowercase(a)));
    }
}

#[test]
fn orders_like_strings() {
    for a in SAMPLES {
        for b in SAMPLES {
            assert_eq!(at_most(a, b), a <= b);
        }
    }
    assert!(at_most("Jett", "Omen"));
    assert!(!at_most("omen", "Omen"));
}

#[test]
fn searches_from_both_ends() {
    assert_eq!(find("abcabc", "bc"), Some(1));
    assert_eq!(rfind("abcabc", "bc"), Some(4));
    assert_eq!(find("\u{e9}\u{e9}x", "x"), Some(2));
    assert_eq!(find("abc", "abcd"), None);
    assert_eq!(rfind("abc", "d"), None);
    assert_eq!(rfind("aaa", "aa"), Some(1));
    assert_eq!(find("", ""), Some(0));
    assert_eq!(rfind("ab", ""), Some(2));
}

#[test]
fn cuts_at_patterns() {
    assert_eq!(cut_before_first("a-1.b-1.c", "-1."), "a");
    assert_eq!(cut_before_first("abc", "-1."), "abc");
    assert_eq!(cut_after_first("a-1.b-1.c", "-1."), Some("b-1.c"));
    assert_eq!(cut_after_first("abc", "-1."), None);
    assert_eq!(cut_after_last("/Game/Maps/Foo", "/"), "Foo");
    assert_eq!(cut_after_last("/Game/Maps/", "/"), "");
    assert_eq!(cut_after_last("Foo", "/"), "Foo");
    assert_eq!(strip_prefix("-ares-region=eu", "-ares-region="), Some("eu"));
    assert_eq!(strip_prefix("ares-region=eu", "-ares-region="), None);
    assert_eq!(strip_prefix("a", "ab"), None);
}

#[test]
fn splits_like_a_string() {
    for text in SAMPLES {
        for separator in ["a", "/", "ab", "aa"] {
            let pieces: Vec<&str> = text.split(separator).collect();
            assert_eq!(split(text, separator), pieces);
        }
    }
    assert_eq!(split("a:b::c", ":"), vec!["a", "b", "", "c"]);
}

#[test]
fn replaces_like_a_string() {
    for text in SAMPLES {
        for pattern in ["a", "/", "ab", "aa"] {
            assert_eq!(replace(text, pattern, "-"), text.replace(pattern, "-"));
            assert_eq!(
                replace_once(text, pattern, "<>"),
                text.replacen(pattern, "<>", 1)
            );
        }
    }
    assert_eq!(replace("aXbX", "X", "[x]"), "a[x]b[x]");
    assert_eq!(replace_once("aXbX", "X", "[x]"), "a[x]bX");
}

#[test]
fn reads_port_numbers_like_a_parser() {
    for text in [
        "", "0", "8080", "65535", "65536", "99999999999999999999", "+80", "+", "-1", "-0", " 80",
        "80 ", "0080", "8a", "+-1", "++1", "\u{661}",
    ] {
        assert_eq!(parse_port(text), text.parse::<u16>().ok(), "{text:?}");
    }
}

#[test]
fn every_port_number_reads_back() {
    for port in 0..=u16::MAX {
        let text = decimal_u16(port);
        assert_eq!(text, port.to_string());
        assert_eq!(parse_port(&text), Some(port));
    }
}
