use flashrom_tester::text::{chars_of, eq_ignore_ascii_case, str_eq, to_ascii_lowercase};

#[test]
fn str_eq_compares_whole_strings() {
    assert!(str_eq("", ""));
    assert!(str_eq("Erase", "Erase"));
    assert!(!str_eq("Erase", "erase"));
    assert!(!str_eq("Erase", "Erase "));
    assert!(!str_eq("Erase", "Eras"));
    assert!(!str_eq("", "x"));
    assert!(str_eq("pr\u{fc}fung", "pr\u{fc}fung"));
    assert!(!str_eq("pr\u{fc}fung", "pru\u{308}fung"));
}

#[test]
fn to_ascii_lowercase_changes_capitals_only() {
    assert_eq!(to_ascii_lowercase('A'), 'a');
    assert_eq!(to_ascii_lowercase('Z'), 'z');
    assert_eq!(to_ascii_lowercase('M'), 'm');
    assert_eq!(to_ascii_lowercase('a'), 'a');
    assert_eq!(to_ascii_lowercase('z'), 'z');
    assert_eq!(to_ascii_lowercase('@'), '@');
    assert_eq!(to_ascii_lowercase('['), '[');
    assert_eq!(to_ascii_lowercase('0'), '0');
    assert_eq!(to_ascii_lowercase('\u{c4}'), '\u{c4}');
    assert_eq!(to_ascii_lowercase('\u{212A}'), '\u{212A}');
    for c in ['A', 'q', 'Z', '{', '\u{e9}', '\u{1F600}'] {
        assert_eq!(to_ascii_lowercase(c), c.to_ascii_lowercase());
    }
}

#[test]
fn chars_of_lists_the_characters() {
    assert_eq!(chars_of(""), Vec::<char>::new());
    assert_eq!(chars_of("json"), vec!['j', 's', 'o', 'n']);
    assert_eq!(chars_of("a\u{e9}\u{1F600}"), vec!['a', '\u{e9}', '\u{1F600}']);
}

#[test]
fn eq_ignore_ascii_case_agrees_with_std() {
    let samples = [
        "", "json", "JSON", "Json", "jsom", "jso", "pretty", "PRETTY", "pretty ", "\u{212A}son",
        "kson", "stra\u{df}e", "STRA\u{df}E", "STRASSE", "\u{e9}", "\u{c9}", "[", "{", "@", "`",
    ];
    for a in samples {
        for b in samples {
            assert_eq!(eq_ignore_ascii_case(a, b), a.eq_ignore_ascii_case(b));
        }
    }
    assert!(eq_ignore_ascii_case("Pretty", "pRETTY"));
    assert!(!eq_ignore_ascii_case("[", "{"));
    assert!(!eq_ignore_ascii_case("@", "`"));
    assert!(!eq_ignore_ascii_case("\u{e9}", "\u{c9}"));
}
