use kubenav::parse::{parse_name_list, split_lines, split_whitespace_words, trim_quotes};

#[test]
fn words_are_maximal_runs() {
    assert_eq!(split_whitespace_words("  foo bar\nbaz  "), vec!["foo", "bar", "baz"]);
    assert_eq!(split_whitespace_words("pod-1 pod-2\tpod-3"), vec!["pod-1", "pod-2", "pod-3"]);
}

#[test]
fn words_of_empty_and_blank_input() {
    assert!(split_whitespace_words("").is_empty());
    assert!(split_whitespace_words(" \t\r\n ").is_empty());
}

#[test]
fn trim_quotes_strips_both_ends() {
    assert_eq!(trim_quotes("'abc'"), "abc");
    assert_eq!(trim_quotes("''a''"), "a");
    assert_eq!(trim_quotes("''''"), "");
    assert_eq!(trim_quotes("a'b"), "a'b");
    assert_eq!(trim_quotes(""), "");
}

#[test]
fn lines_split_and_strip_carriage_returns() {
    assert_eq!(split_lines("a\r\nb\nc"), vec!["a", "b", "c"]);
    assert_eq!(split_lines("a\nb\n"), vec!["a", "b"]);
    assert_eq!(split_lines("a\n\nb"), vec!["a", "", "b"]);
    assert!(split_lines("").is_empty());
}

#[test]
fn name_list_combines_trim_and_split() {
    assert_eq!(parse_name_list("'pod-1 pod-2'"), vec!["pod-1", "pod-2"]);
    assert!(parse_name_list("''").is_empty());
}
