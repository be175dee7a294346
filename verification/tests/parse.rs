use dotenv_linter_cli::invocation::{read_invocation, read_values, ArgValues, Invocation};
use dotenv_linter_cli::parser::{get_args, ParseError};
use dotenv_linter_cli::schema::{cli, Package};

fn package() -> Package<'static> {
    Package {
        name: "dotenv-linter",
        about: "Lightning-fast linter for .env files",
        authors: "The maintainers",
        version: "3.0.0",
    }
}

fn words(args: &[&str]) -> Vec<String> {
    args.iter().map(|word| word.to_string()).collect()
}

fn parse(args: &[&str]) -> Result<Invocation, ParseError> {
    let package = package();
    get_args(&package, "/work", &words(args))
}

fn texts(values: &[&str]) -> Vec<String> {
    words(values)
}

#[test]
fn no_argument_defaults_the_input_to_the_working_directory() {
    let invocation = parse(&["dotenv-linter"]).unwrap();
    assert!(invocation.subcommand.is_none());
    assert_eq!(invocation.root.inputs, texts(&["/work"]));
    assert!(invocation.root.excludes.is_empty());
    assert!(invocation.root.skips.is_empty());
    assert!(!invocation.root.recursive);
    assert!(!invocation.root.quiet);
    assert!(!invocation.root.no_color);
    assert!(!invocation.root.no_backup);
}

#[test]
fn an_empty_argument_vector_is_parsed_like_no_argument() {
    let invocation = parse(&[]).unwrap();
    assert!(invocation.subcommand.is_none());
    assert_eq!(invocation.root.inputs, texts(&["/work"]));
}

#[test]
fn inputs_are_kept_in_their_order() {
    let invocation = parse(&["dotenv-linter", "b.env", "a.env", "dir"]).unwrap();
    assert!(invocation.subcommand.is_none());
    assert_eq!(invocation.root.inputs, texts(&["b.env", "a.env", "dir"]));
}

#[test]
fn excludes_and_skips_repeat() {
    let invocation = parse(&[
        "dotenv-linter",
        "-e",
        ".env.test",
        "--exclude",
        ".env.local",
        "-s",
        "LowercaseKey",
        "--skip",
        "UnorderedKey",
    ])
    .unwrap();
    assert_eq!(invocation.root.excludes, texts(&[".env.test", ".env.local"]));
    assert_eq!(invocation.root.skips, texts(&["LowercaseKey", "UnorderedKey"]));
    assert_eq!(invocation.root.inputs, texts(&["/work"]));
}

#[test]
fn flags_are_read_by_short_and_long_form() {
    let short = parse(&["dotenv-linter", "-r", "-q"]).unwrap();
    assert!(short.root.recursive);
    assert!(short.root.quiet);
    assert!(!short.root.no_color);
    let long = parse(&["dotenv-linter", "--recursive", "--quiet", "--no-color"]).unwrap();
    assert!(long.root.recursive);
    assert!(long.root.quiet);
    assert!(long.root.no_color);
}

#[test]
fn fix_is_selected_by_name_and_by_alias() {
    for word in ["fix", "f"] {
        let invocation = parse(&["dotenv-linter", word, "--no-backup", ".env"]).unwrap();
        let selected = invocation.subcommand.unwrap();
        assert_eq!(selected.name, "fix");
        assert!(selected.args.no_backup);
        assert_eq!(selected.args.inputs, texts(&[".env"]));
    }
}

#[test]
fn fix_takes_what_the_check_takes() {
    let invocation = parse(&[
        "dotenv-linter",
        "fix",
        "-r",
        "-q",
        "--no-color",
        "-e",
        "x.env",
        "-s",
        "KeyWithoutValue",
    ])
    .unwrap();
    let selected = invocation.subcommand.unwrap();
    assert_eq!(selected.name, "fix");
    assert!(selected.args.recursive);
    assert!(selected.args.quiet);
    assert!(selected.args.no_color);
    assert!(!selected.args.no_backup);
    assert_eq!(selected.args.excludes, texts(&["x.env"]));
    assert_eq!(selected.args.skips, texts(&["KeyWithoutValue"]));
    assert_eq!(selected.args.inputs, texts(&["/work"]));
    assert!(!invocation.root.no_color);
}

#[test]
fn list_is_selected_by_name_and_by_alias() {
    for word in ["list", "l"] {
        let invocation = parse(&["dotenv-linter", word]).unwrap();
        let selected = invocation.subcommand.unwrap();
        assert_eq!(selected.name, "list");
        assert!(selected.args.inputs.is_empty());
    }
}

#[test]
fn compare_is_selected_by_name_and_by_alias() {
    for word in ["compare", "c"] {
        let invocation = parse(&["dotenv-linter", word, "a.env", "b.env", "-q"]).unwrap();
        let selected = invocation.subcommand.unwrap();
        assert_eq!(selected.name, "compare");
        assert_eq!(selected.args.inputs, texts(&["a.env", "b.env"]));
        assert!(selected.args.quiet);
        assert!(!selected.args.no_color);
    }
}

#[test]
fn compare_with_one_file_is_a_usage_error() {
    let refused = parse(&["dotenv-linter", "compare", "a.env"]).unwrap_err();
    assert!(matches!(refused, ParseError::Usage { .. }));
}

#[test]
fn compare_without_files_is_a_usage_error() {
    let refused = parse(&["dotenv-linter", "compare"]).unwrap_err();
    assert!(matches!(refused, ParseError::Usage { .. }));
}

#[test]
fn compare_knows_no_exclude_skip_or_recursive() {
    for flag in ["-e", "--exclude", "-s", "--skip", "-r", "--recursive", "--no-backup"] {
        let refused = parse(&["dotenv-linter", "compare", "a.env", "b.env", flag]).unwrap_err();
        assert!(matches!(refused, ParseError::Usage { .. }));
    }
}

#[test]
fn list_takes_no_argument() {
    let refused = parse(&["dotenv-linter", "list", "-q"]).unwrap_err();
    assert!(matches!(refused, ParseError::Usage { .. }));
}

#[test]
fn an_option_without_its_value_is_a_usage_error() {
    for option in ["-e", "--exclude", "-s", "--skip"] {
        let refused = parse(&["dotenv-linter", option]).unwrap_err();
        assert!(matches!(refused, ParseError::Usage { .. }));
    }
}

#[test]
fn an_unknown_flag_is_a_usage_error() {
    let refused = parse(&["dotenv-linter", "--bogus"]).unwrap_err();
    match refused {
        ParseError::Usage { message } => assert!(message.contains("--bogus")),
        ParseError::Display { .. } => panic!("an unknown flag is no request for help"),
    }
}

#[test]
fn no_backup_belongs_to_fix_alone() {
    let refused = parse(&["dotenv-linter", "--no-backup"]).unwrap_err();
    assert!(matches!(refused, ParseError::Usage { .. }));
}

#[test]
fn help_is_displayed_and_no_error() {
    let refused = parse(&["dotenv-linter", "--help"]).unwrap_err();
    match refused {
        ParseError::Display { message } => {
            assert!(message.contains("Lightning-fast linter for .env files"));
            assert!(message.contains("The maintainers"));
            assert!(message.contains("--exclude"));
            assert!(message.contains("FILE_NAME"));
            assert!(message.contains("CHECK_NAME"));
        }
        ParseError::Usage { .. } => panic!("a request for help is no fault"),
    }
}

#[test]
fn help_of_a_subcommand_shows_its_usage_line() {
    let refused = parse(&["dotenv-linter", "fix", "--help"]).unwrap_err();
    match refused {
        ParseError::Display { message } => {
            assert!(message.contains("dotenv-linter fix [FLAGS] [OPTIONS] <input>..."));
            assert!(message.contains("Automatically fixes warnings"));
            assert!(message.contains("--no-backup"));
        }
        ParseError::Usage { .. } => panic!("a request for help is no fault"),
    }
}

#[test]
fn version_is_displayed_with_the_short_form_v() {
    for flag in ["-v", "--version"] {
        let refused = parse(&["dotenv-linter", flag]).unwrap_err();
        match refused {
            ParseError::Display { message } => assert_eq!(message, ""),
            ParseError::Usage { .. } => panic!("a request for the version is no fault"),
        }
    }
}

#[test]
fn subcommands_have_no_version_flag() {
    let refused = parse(&["dotenv-linter", "fix", "--version"]).unwrap_err();
    assert!(matches!(refused, ParseError::Usage { .. }));
}

#[test]
fn a_command_word_that_selects_no_command_is_the_marker_of_an_unknown_command() {
    for word in ["bogus", "help", "compar", "Fix", "LIST", "check", "src", "my_command", "x-y", "42"] {
        let invocation = parse(&["dotenv-linter", word]).unwrap();
        assert_eq!(invocation, Invocation::unknown(word.to_string()));
        assert_eq!(invocation.subcommand.unwrap().name, word);
        assert!(invocation.root.inputs.is_empty());
    }
}

#[test]
fn what_follows_an_unknown_command_word_is_not_read() {
    for rest in [vec!["a.env"], vec!["--help"], vec!["--no-color"], vec!["--bogus"], vec!["fix"]] {
        let mut args = vec!["dotenv-linter", "bogus"];
        args.extend(rest);
        let invocation = parse(&args).unwrap();
        assert_eq!(invocation, Invocation::unknown("bogus".to_string()));
    }
}

#[test]
fn a_first_argument_with_a_dot_or_a_separator_is_an_input() {
    for path in ["a.env", ".env", ".", "..", "./bogus", "bogus/", "dir/sub", "..\\dir", "/abs", "bogus.d"] {
        let invocation = parse(&["dotenv-linter", path, "b.env"]).unwrap();
        assert!(invocation.subcommand.is_none());
        assert_eq!(invocation.root.inputs, texts(&[path, "b.env"]));
    }
}

#[test]
fn a_word_is_an_input_where_no_command_is_expected() {
    let after_a_path = parse(&["dotenv-linter", "a.env", "bogus"]).unwrap();
    assert!(after_a_path.subcommand.is_none());
    assert_eq!(after_a_path.root.inputs, texts(&["a.env", "bogus"]));
    let after_a_flag = parse(&["dotenv-linter", "-q", "bogus"]).unwrap();
    assert!(after_a_flag.subcommand.is_none());
    assert_eq!(after_a_flag.root.inputs, texts(&["bogus"]));
    let after_the_separator = parse(&["dotenv-linter", "--", "bogus"]).unwrap();
    assert!(after_the_separator.subcommand.is_none());
    assert_eq!(after_the_separator.root.inputs, texts(&["bogus"]));
}

#[test]
fn a_misspelt_subcommand_after_a_flag_is_a_usage_error() {
    let refused = parse(&["dotenv-linter", "-q", "compar"]).unwrap_err();
    assert!(matches!(refused, ParseError::Usage { .. }));
}

#[test]
fn nothing_matched_holds_no_value_and_no_flag() {
    let nothing = ArgValues::none();
    assert!(nothing.inputs.is_empty());
    assert!(nothing.excludes.is_empty());
    assert!(nothing.skips.is_empty());
    assert!(!nothing.recursive && !nothing.quiet && !nothing.no_color && !nothing.no_backup);
}

#[test]
fn the_root_flag_and_the_flag_of_compare_are_read_apart() {
    let at_root = parse(&["dotenv-linter", "--no-color", "compare", "a.env", "b.env"]).unwrap();
    assert!(at_root.root.no_color);
    assert!(!at_root.subcommand.unwrap().args.no_color);
    let under_compare =
        parse(&["dotenv-linter", "compare", "--no-color", "a.env", "b.env"]).unwrap();
    assert!(!under_compare.root.no_color);
    assert!(under_compare.subcommand.unwrap().args.no_color);
}

#[test]
fn values_are_read_under_the_names_of_the_schema() {
    let package = package();
    let matches = cli(&package, "/work")
        .get_matches_from_safe(words(&["dotenv-linter", "-e", "one", "two", "-r"]))
        .unwrap();
    let values = read_values(&matches);
    assert_eq!(values.excludes, texts(&["one", "two"]));
    assert_eq!(values.inputs, texts(&["/work"]));
    assert!(values.recursive);
    assert_eq!(matches.values_of_lossy("exclude"), Some(texts(&["one", "two"])));
    assert!(matches.is_present("recursive"));
    assert!(!matches.is_present("quiet"));
    let invocation = read_invocation(&matches);
    assert_eq!(invocation.root, values);
    assert!(invocation.subcommand.is_none());
}

#[test]
fn a_selected_subcommand_is_read_with_its_name() {
    let package = package();
    let matches = cli(&package, "/work")
        .get_matches_from_safe(words(&["dotenv-linter", "f", "--no-backup", ".env"]))
        .unwrap();
    let invocation = read_invocation(&matches);
    let selected = invocation.subcommand.unwrap();
    assert_eq!(selected.name, "fix");
    assert!(selected.args.no_backup);
    assert_eq!(selected.args.inputs, texts(&[".env"]));
}
