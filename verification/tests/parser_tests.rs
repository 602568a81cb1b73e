use minishell::parser::parse_input;

#[test]
fn parse_args_test_empty() {
    let args = "";

    let res = parse_input(args);
    assert!(res.is_empty());
}

#[test]
fn parse_args_test_single_quote_1() {
    let args = "'shell hello'";

    let res = parse_input(args);
    assert!(res.len() == 1);
    assert_eq!(res[0], "shell hello")
}

#[test]
fn parse_args_test_single_quote_2() {
    let args = "'/tmp/file name' '/tmp/file name with spaces'";

    let res = parse_input(args);
    assert!(res.len() == 2);
    assert_eq!(res[0], "/tmp/file name");
    assert_eq!(res[1], "/tmp/file name with spaces");
}

#[test]
fn parse_args_test_double_quote_2() {
    let args = "\"quz  hello\"  \"bar\"";

    let res = parse_input(args);
    assert!(res.len() == 2);
    assert_eq!(res[0], "quz  hello");
    assert_eq!(res[1], "bar")
}

#[test]
fn parse_args_test_double_quote_enclose_single_quotes() {
    let args = "\"/tmp/file name\" \"/tmp/'file name' with spaces\"";
    let res = parse_input(args);
    assert!(res.len() == 2);
    assert_eq!(res[0], "/tmp/file name");
    assert_eq!(res[1], "/tmp/'file name' with spaces");
}

#[test]
fn parse_args_test_mixed_quotes_3() {
    let args = "\"bar\"  \"shell's\"  \"foo\"";

    let res = parse_input(args);
    assert!(res.len() == 3);
    assert_eq!(res[0], "bar");
    assert_eq!(res[1], "shell's");
    assert_eq!(res[2], "foo");
}

#[test]
fn parse_args_test_enclosed_backslash() {
    let args = "'/tmp/baz/\"f\\91\"'";

    let res = parse_input(args);
    assert!(res.len() == 1);
    assert_eq!(res[0], "/tmp/baz/\"f\\91\"");
}

#[test]
fn parse_args_collapses_separators() {
    let res = parse_input("a b  c");
    assert_eq!(res, vec!["a", "b", "c"]);
}

#[test]
fn parse_args_unquoted_backslash_escapes() {
    let res = parse_input("a\\ b c\\\\d");
    assert_eq!(res, vec!["a b", "c\\d"]);
}

#[test]
fn parse_args_double_quote_backslash_rules() {
    // inside double quotes a backslash escapes only $, \, " and newline
    let res = parse_input("\"a\\$b\" \"c\\x\" \"d\\\"e\"");
    assert_eq!(res, vec!["a$b", "c\\x", "d\"e"]);
}

#[test]
fn parse_args_adjacent_segments_join() {
    let res = parse_input("'ab'cd e\"f g\"h");
    assert_eq!(res, vec!["abcd", "ef gh"]);
}

#[test]
fn parse_args_whitespace_only_is_empty() {
    let res = parse_input("     ");
    assert!(res.is_empty());
}

#[test]
fn parse_args_unterminated_quote_is_literal() {
    // chosen policy: a quote left open takes the remainder literally
    let res = parse_input("'ab cd");
    assert_eq!(res, vec!["ab cd"]);
}

#[test]
fn parse_args_trailing_backslash_dropped() {
    // chosen policy: a backslash with nothing after it is dropped
    let res = parse_input("ab\\");
    assert_eq!(res, vec!["ab"]);
}
