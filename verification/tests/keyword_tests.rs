use remote_settings::suggest::keyword::{
    char_byte_len, full_keyword, is_space_char, join_first_words, range_byte_len, starts_with,
    trimmed_byte_len, word_spans,
};

fn strings(v: &[&str]) -> Vec<String> {
    v.iter().map(|s| s.to_string()).collect()
}

#[test]
fn keywords_with_more_words() {
    let kws = strings(&["moz", "mozi", "mozil", "mozill", "mozilla", "mozilla firefox"]);
    assert_eq!(full_keyword("moz", &kws), "mozilla");
    assert_eq!(full_keyword("mozilla", &kws), "mozilla");
}

#[test]
fn keywords_with_longer_phrase() {
    let kws = strings(&["moz", "mozi", "mozil", "mozill", "mozilla"]);
    assert_eq!(full_keyword("moz", &kws), "mozilla");
    let kws = strings(&["moz", "mozi", "mozil", "mozill", "mozilla firefox"]);
    assert_eq!(full_keyword("mozilla f", &kws), "mozilla firefox");
}

#[test]
fn query_ends_with_space() {
    let kws = strings(&["moz", "mozi", "mozil", "mozill", "mozilla", "mozilla firefox"]);
    assert_eq!(full_keyword("mozilla ", &kws), "mozilla firefox");
}

#[test]
fn phrase_cut_to_needed_words() {
    let kws = strings(&["mozilla firefox browser"]);
    assert_eq!(full_keyword("mozilla", &kws), "mozilla");
    assert_eq!(full_keyword("mozilla f", &kws), "mozilla firefox");
    assert_eq!(full_keyword("mozilla firefox ", &kws), "mozilla firefox browser");
}

#[test]
fn no_keyword_matches() {
    let kws = strings(&["xyz", "abcd"]);
    assert_eq!(full_keyword("abc ", &kws), "abc ");
    assert_eq!(full_keyword("q", &[]), "q");
}

#[test]
fn fallback_prefers_last_longest() {
    // Both extensions trim to the same length: the later one wins.
    let kws = strings(&["ab  ", "abcd", "ab12"]);
    assert_eq!(full_keyword("ab", &kws), "ab12");
}

#[test]
fn first_long_phrase_wins() {
    let kws = strings(&["sun rise", "sun set time", "sunshine day"]);
    assert_eq!(full_keyword("sun", &kws), "sun");
    assert_eq!(full_keyword("sun ", &kws), "sun set");
}

#[test]
fn word_spans_of_text() {
    assert_eq!(word_spans("  ab cd  e "), vec![(2, 4), (5, 7), (9, 10)]);
    assert_eq!(word_spans(""), vec![]);
    assert_eq!(word_spans("\u{3000}x\u{a0}y"), vec![(1, 2), (3, 4)]);
}

#[test]
fn join_words_of_text() {
    let s = " one  two three";
    let spans = word_spans(s);
    assert_eq!(join_first_words(s, &spans, 2), "one two");
    assert_eq!(join_first_words(s, &spans, 0), "");
}

#[test]
fn prefixes() {
    assert!(starts_with("mozilla", "moz"));
    assert!(starts_with("moz", ""));
    assert!(!starts_with("moz", "mozilla"));
    assert!(!starts_with("firefox", "moz"));
}

#[test]
fn byte_lengths() {
    assert_eq!(char_byte_len('a'), 1);
    assert_eq!(char_byte_len('é'), 2);
    assert_eq!(char_byte_len('€'), 3);
    assert_eq!(char_byte_len('😀'), 4);
    assert_eq!(range_byte_len("aé€", 0, 3), 6);
    assert_eq!(range_byte_len("aé€", 1, 2), 2);
    assert_eq!(trimmed_byte_len("  é x \n"), 4);
    assert_eq!(trimmed_byte_len(" \t "), 0);
}

#[test]
fn whitespace_chars() {
    assert!(is_space_char(' '));
    assert!(is_space_char('\n'));
    assert!(is_space_char('\u{2003}'));
    assert!(!is_space_char('a'));
    assert!(!is_space_char('\u{200b}'));
    for c in ['\u{0}', 'x', '\u{9}', '\u{85}', '\u{1680}', '\u{200a}', '\u{202f}', '\u{3000}'] {
        assert_eq!(is_space_char(c), c.is_whitespace());
    }
}
