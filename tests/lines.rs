use fzf_alt::lines::split_lines;

#[test]
fn lines_are_split_on_newlines_only() {
    assert_eq!(split_lines("a b\tc\nd"), vec!["a b\tc".to_owned(), "d".to_owned()]);
}

#[test]
fn empty_lines_are_skipped() {
    assert_eq!(split_lines(""), Vec::<String>::new());
    assert_eq!(split_lines("\n\n"), Vec::<String>::new());
    assert_eq!(split_lines("\nx\n\ny\n"), vec!["x".to_owned(), "y".to_owned()]);
}

#[test]
fn carriage_return_before_newline_is_dropped() {
    assert_eq!(split_lines("x\r\ny\r"), vec!["x".to_owned(), "y".to_owned()]);
    assert_eq!(split_lines("\r\n"), Vec::<String>::new());
    assert_eq!(split_lines("a\rb\n"), vec!["a\rb".to_owned()]);
    assert_eq!(split_lines("a\r\r\n"), vec!["a\r".to_owned()]);
}

#[test]
fn non_ascii_lines_are_kept() {
    assert_eq!(split_lines("lib/é.ex\ntest/日本_test.exs"), vec!["lib/é.ex".to_owned(), "test/日本_test.exs".to_owned()]);
}
