use dotenv_linter_cli::context::InvocationContext;
use dotenv_linter_cli::exit::{conclude, Exit, Outcome};
use dotenv_linter_cli::invocation::{ArgValues, Invocation, Selected};
use dotenv_linter_cli::policy::OutputPolicy;
use dotenv_linter_cli::router::{route, Route};
use dotenv_linter_cli::run::start;
use dotenv_linter_cli::schema::Package;

fn tool() -> Package<'static> {
    Package {
        name: "dotenv-linter",
        about: "Lightning-fast linter for .env files",
        authors: "The maintainers",
        version: "3.0.0",
    }
}

fn command_line(args: &[&str]) -> Vec<String> {
    args.iter().map(|word| word.to_string()).collect()
}

fn begin(args: &[&str]) -> (Result<Route, Exit>, OutputPolicy) {
    let mut policy = OutputPolicy::new();
    let next = start(&tool(), "/home/project", &command_line(args), &mut policy);
    (next, policy)
}

#[test]
fn check_of_a_compliant_directory_exits_with_0() {
    let (next, policy) = begin(&["dotenv-linter"]);
    let route = next.unwrap();
    assert_eq!(
        route,
        Route::Check(InvocationContext {
            inputs: vec!["/home/project".to_string()],
            excludes: Vec::new(),
            skips: Vec::new(),
            recursive: false,
            quiet: false,
            no_color: false,
            no_backup: false,
        })
    );
    assert!(!policy.is_color_disabled());
    let exit = conclude(Outcome::Checked { warnings: 0 });
    assert_eq!(exit.code, 0);
}

#[test]
fn fix_without_backup_exits_with_0() {
    let (next, _) = begin(&["dotenv-linter", "fix", "--no-backup", ".env"]);
    match next.unwrap() {
        Route::Fix(context) => {
            assert!(context.no_backup);
            assert_eq!(context.inputs, vec![".env".to_string()]);
        }
        other => panic!("routed to {:?}", other),
    }
    assert_eq!(conclude(Outcome::Fixed).code, 0);
}

#[test]
fn compare_of_files_with_different_keys_exits_with_1() {
    let (next, _) = begin(&["dotenv-linter", "compare", "a.env", "b.env"]);
    match next.unwrap() {
        Route::Compare(context) => {
            assert_eq!(context.inputs, vec!["a.env".to_string(), "b.env".to_string()]);
            assert!(context.excludes.is_empty());
            assert!(context.skips.is_empty());
            assert!(!context.recursive);
        }
        other => panic!("routed to {:?}", other),
    }
    assert_eq!(conclude(Outcome::Compared { warnings: 2 }).code, 1);
}

#[test]
fn an_unknown_command_exits_with_1() {
    let (next, policy) = begin(&["dotenv-linter", "bogus"]);
    assert_eq!(next.unwrap(), Route::Unknown);
    assert!(!policy.is_color_disabled());
    let exit = conclude(Outcome::Unknown);
    assert_eq!(exit.errors, vec!["unknown command".to_string()]);
    assert!(exit.output.is_empty());
    assert_eq!(exit.code, 1);
}

#[test]
fn an_unknown_marker_routes_to_the_unknown_command() {
    let nothing = ArgValues {
        inputs: Vec::new(),
        excludes: Vec::new(),
        skips: Vec::new(),
        recursive: false,
        quiet: false,
        no_color: false,
        no_backup: false,
    };
    let invocation = Invocation {
        root: nothing.clone(),
        subcommand: Some(Selected { name: "bogus".to_string(), args: nothing }),
    };
    let mut policy = OutputPolicy::new();
    let routed = route(invocation, "/home/project", &mut policy);
    assert_eq!(routed, Route::Unknown);
}

#[test]
fn an_unknown_command_word_is_unknown_whatever_follows() {
    for args in [
        vec!["dotenv-linter", "bogus", "a.env"],
        vec!["dotenv-linter", "bogus", "--no-color"],
        vec!["dotenv-linter", "bogus", "--help"],
        vec!["dotenv-linter", "help"],
        vec!["dotenv-linter", "compar"],
    ] {
        let (next, policy) = begin(&args);
        assert_eq!(next.unwrap(), Route::Unknown);
        assert!(!policy.is_color_disabled());
    }
}

#[test]
fn paths_flags_and_commands_are_never_unknown() {
    for args in [
        vec!["dotenv-linter"],
        vec!["dotenv-linter", "a.env", "b.env"],
        vec!["dotenv-linter", "./bogus"],
        vec!["dotenv-linter", "-q", "bogus"],
        vec!["dotenv-linter", "--", "bogus"],
        vec!["dotenv-linter", "list"],
        vec!["dotenv-linter", "l"],
        vec!["dotenv-linter", "f"],
        vec!["dotenv-linter", "c", "a", "b"],
    ] {
        let (next, _) = begin(&args);
        assert_ne!(next.unwrap(), Route::Unknown);
    }
}

#[test]
fn list_is_routed_without_context() {
    let (next, policy) = begin(&["dotenv-linter", "list"]);
    assert_eq!(next.unwrap(), Route::List);
    assert!(!policy.is_color_disabled());
    let names = vec!["DuplicatedKey".to_string(), "EndingBlankLine".to_string()];
    let exit = conclude(Outcome::Listed { names: names.clone() });
    assert_eq!(exit.output.len(), names.len());
    assert_eq!(exit.output, names);
    assert_eq!(exit.code, 0);
}

#[test]
fn a_missing_value_stops_the_run_before_any_operation() {
    for args in [
        vec!["dotenv-linter", "--exclude"],
        vec!["dotenv-linter", "-s"],
        vec!["dotenv-linter", "fix", "-e"],
        vec!["dotenv-linter", "compare"],
        vec!["dotenv-linter", "compare", "a.env"],
        vec!["dotenv-linter", "c", "a.env", "--quiet"],
    ] {
        let (next, policy) = begin(&args);
        let exit = next.unwrap_err();
        assert_eq!(exit.code, 1);
        assert!(exit.output.is_empty());
        assert_eq!(exit.errors.len(), 1);
        assert!(exit.errors[0].contains("error:"));
        assert!(!policy.is_color_disabled());
    }
}

#[test]
fn a_request_for_help_stops_the_run_with_code_0() {
    let (next, _) = begin(&["dotenv-linter", "--help"]);
    let exit = next.unwrap_err();
    assert_eq!(exit.code, 0);
    assert!(exit.errors.is_empty());
    assert_eq!(exit.output.len(), 1);
    assert!(exit.output[0].contains("USAGE"));
}

#[test]
fn a_request_for_the_version_stops_the_run_with_code_0() {
    for flag in ["-v", "--version"] {
        let (next, _) = begin(&["dotenv-linter", flag]);
        let exit = next.unwrap_err();
        assert_eq!(exit.code, 0);
        assert!(exit.errors.is_empty());
        assert_eq!(exit.output, vec![String::new()]);
    }
}

#[test]
fn compare_is_never_routed_to_with_fewer_than_two_inputs() {
    for args in [
        vec!["dotenv-linter", "compare", "a.env", "b.env"],
        vec!["dotenv-linter", "compare", "a.env", "b.env", "c.env"],
        vec!["dotenv-linter", "c", "-q", "a.env", "b.env"],
    ] {
        let (next, _) = begin(&args);
        match next.unwrap() {
            Route::Compare(context) => assert!(context.inputs.len() >= 2),
            other => panic!("routed to {:?}", other),
        }
    }
}

#[test]
fn every_routed_context_names_an_input() {
    for args in [
        vec!["dotenv-linter"],
        vec!["dotenv-linter", "-r"],
        vec!["dotenv-linter", "fix"],
        vec!["dotenv-linter", "fix", "--no-backup"],
        vec!["dotenv-linter", "compare", "a", "b"],
    ] {
        let (next, _) = begin(&args);
        match next.unwrap() {
            Route::Check(context) | Route::Fix(context) | Route::Compare(context) => {
                assert!(!context.inputs.is_empty())
            }
            other => panic!("routed to {:?}", other),
        }
    }
}
