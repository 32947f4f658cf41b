use stack_vm::converter::{Case, Opts, reverse_line, transform_line};

#[test]
fn test_opt_parser_uppercase() {
    let opts = Opts::parse(&["--upper".to_string()]);
    assert_eq!(opts.case, Some(Case::Upper));
}

#[test]
fn test_opt_parser_lowercase() {
    let opts = Opts::parse(&["--lower".to_string()]);
    assert_eq!(opts.case, Some(Case::Lower));
}

#[test]
fn test_opt_parser_output_path() {
    let opts = Opts::parse(&["--output".to_string(), "somefile.txt".to_string()]);
    assert_eq!(opts.output_path, Some("somefile.txt".to_string()));
}

#[test]
fn test_opt_parser_input_path() {
    let opts = Opts::parse(&["hello.txt".to_string()]);
    assert_eq!(opts.input_path, Some("hello.txt".to_string()));
}

#[test]
fn test_opt_parser_reverse() {
    let opts = Opts::parse(&["--reverse".to_string()]);
    assert!(opts.reverse);
    assert_eq!(opts.case, None);
    assert_eq!(opts.input_path, None);
    assert_eq!(opts.output_path, None);
}

#[test]
fn test_opt_parser_output_without_path() {
    let opts = Opts::parse(&["--output".to_string()]);
    assert_eq!(opts.output_path, None);
}

#[test]
fn test_opt_parser_unknown_flag_ignored() {
    let opts = Opts::parse(&["-x".to_string(), "in.txt".to_string()]);
    assert_eq!(opts.input_path, Some("in.txt".to_string()));
    assert_eq!(opts.output_path, None);
}

#[test]
fn test_opt_parser_later_argument_wins() {
    let opts = Opts::parse(&["--upper".to_string(), "--lower".to_string()]);
    assert_eq!(opts.case, Some(Case::Lower));
}

#[test]
fn reverse_line_reverses_characters() {
    assert_eq!(reverse_line("abc"), "cba".to_string());
    assert_eq!(reverse_line(""), "".to_string());
    assert_eq!(reverse_line("héllo"), "olléh".to_string());
}

#[test]
fn transform_uppercases() {
    assert_eq!(
        transform_line("hello", false, Some(Case::Upper)),
        "HELLO".to_string()
    );
}

#[test]
fn transform_lowercases() {
    assert_eq!(
        transform_line("HeLLo", false, Some(Case::Lower)),
        "hello".to_string()
    );
}

#[test]
fn transform_reverses_then_folds() {
    assert_eq!(
        transform_line("abC", true, Some(Case::Upper)),
        "CBA".to_string()
    );
    assert_eq!(transform_line("abc", true, None), "cba".to_string());
    assert_eq!(transform_line("abc", false, None), "abc".to_string());
}
