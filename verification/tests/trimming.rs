use statline::trim_long_string;

#[test]
fn trim_keeps_short_text() {
    assert_eq!(trim_long_string("hello", 10, "..."), "hello");
}

#[test]
fn trim_cuts_long_text_and_marks_it() {
    let r = trim_long_string("a-very-long-service-name", 10, "...");
    assert_eq!(r, "a-very-...");
    assert!(r.chars().count() <= 10);
    assert!(r.ends_with("..."));
}

#[test]
fn trim_cuts_text_of_exactly_limit_length() {
    assert_eq!(trim_long_string("abcdef", 6, "..."), "abc...");
}

#[test]
fn trim_with_empty_suffix() {
    assert_eq!(trim_long_string("abc", 2, ""), "ab");
    assert_eq!(trim_long_string("a", 2, ""), "a");
}

#[test]
fn trim_counts_characters_not_bytes() {
    // Ten characters, but more bytes: cutting goes by character.
    let s = "čučoriedka";
    assert_eq!(s.chars().count(), 10);
    let r = trim_long_string(s, 8, "...");
    assert_eq!(r, "čučor...");
    assert_eq!(r.chars().count(), 8);
}

#[test]
fn trim_never_splits_a_multibyte_character() {
    let s = "日本語のテキスト";
    for limit in 2..10usize {
        let r = trim_long_string(s, limit, "…");
        // A String is always a valid character sequence; check the cut fell
        // on a whole character of the input as well.
        assert!(r.chars().count() <= limit);
        let kept: String = r.chars().take_while(|c| *c != '…').collect();
        assert!(s.starts_with(&kept));
    }
}
