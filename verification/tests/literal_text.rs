use hname::hash::calculate_hash_from_input;
use hname::literal::{trim_quotes, QUOTE};

#[test]
fn quote_is_the_double_quote() {
    assert_eq!('"', QUOTE);
}

#[test]
fn quotes_around_a_literal_are_removed() {
    assert_eq!("fairroulette", trim_quotes("\"fairroulette\""));
}

#[test]
fn text_without_quotes_is_unchanged() {
    assert_eq!("lockBets", trim_quotes("lockBets"));
    assert_eq!("", trim_quotes(""));
}

#[test]
fn quotes_alone_become_empty() {
    assert_eq!("", trim_quotes("\""));
    assert_eq!("", trim_quotes("\"\""));
    assert_eq!("", trim_quotes("\"\"\""));
}

#[test]
fn repeated_quotes_are_all_removed() {
    assert_eq!("x", trim_quotes("\"\"\"x\"\""));
    assert_eq!("x", trim_quotes("x\""));
    assert_eq!("x", trim_quotes("\"x"));
}

#[test]
fn inner_quotes_stay() {
    assert_eq!("a\"b", trim_quotes("\"a\"b\""));
    assert_eq!("a\\\"b", trim_quotes("\"a\\\"b\""));
}

#[test]
fn non_ascii_text_is_kept() {
    assert_eq!("名前", trim_quotes("\"名前\""));
    assert_eq!("é\"ü", trim_quotes("\"\"é\"ü\""));
}

#[test]
fn trimmed_text_agrees_with_std() {
    let samples: [&str; 6] = ["\"abc\"", "abc", "\"\"", "\"a\"\"b\"", "  \"a\"  ", "r\"x\""];
    for sample in samples {
        assert_eq!(sample.trim_matches('"'), trim_quotes(sample));
    }
}

#[test]
fn literal_text_hashes_as_the_name() {
    let name: String = trim_quotes("\"fairroulette\"");
    assert_eq!(0xdf79d138_u32, calculate_hash_from_input(&name));
}
