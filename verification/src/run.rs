//! One run of the program, from the argument vector to the operation that
//! is to run, and the laws that hold of every run.

use crate::exit::{exit_code_of, exit_of, refusal_of, refuse, Exit, ExitView, Outcome};
use crate::invocation::{invocation_in, unknown_invocation, InvocationView};
use crate::matches::Matches;
use crate::parser::{abides, get_args, parsed_as, satisfied, verdict, ParseError, Refusal};
use crate::policy::OutputPolicy;
use crate::router::{policy_of, route, route_of, selection, Command, Route, RouteView};
use crate::schema::{cli_command, compare_command, compared_declaration, Package};
use crate::word::{names_command, unknown_command};
use vstd::prelude::*;

verus! {

/// A run that ends with a usage error: code 1 and one message, on the error
/// stream.
pub open spec fn ends_as_usage_error(exit: ExitView) -> bool {
    exit.code == 1 && exit.errors.len() == 1 && exit.output.len() == 0
}

/// A run that ends with a displayed text: code 0 and one message, on the
/// standard output.
pub open spec fn ends_as_display(exit: ExitView) -> bool {
    exit.code == 0 && exit.output.len() == 1 && exit.errors.len() == 0
}

/// Starts a run: reads the argument vector, applies the colour policy and
/// routes the invocation.
///
/// - A first argument that is a command word and selects no command of the
///   program routes to the unknown command. Nothing is parsed and the
///   colour policy stays as it was.
/// - Where the parser matches the arguments, the route is that of the
///   invocation which the matches stand for, and the matches abide by the
///   schema.
/// - Where the parser refuses them, no operation is routed to and the
///   colour policy stays as it was: a fault of the invocation ends the run
///   as a usage error, a request for help as a display, and a request for
///   the version as a display or, where the parser could not write the
///   version, as an error.
pub fn start<'a>(
    package: &Package<'a>,
    current_dir: &'a str,
    argv: &Vec<String>,
    policy: &mut OutputPolicy,
) -> (next: Result<Route, Exit>)
    ensures
        match parsed_as(cli_command(*package, current_dir@), argv.deep_view()) {
            Ok(invocation) => {
                &&& next matches Ok(found) && found@ == route_of(invocation, current_dir@)
                &&& *final(policy) == policy_of(*old(policy), invocation)
            },
            Err(refusal) => {
                &&& next matches Err(exit) && match refusal {
                    Refusal::Fault => ends_as_usage_error(exit@),
                    Refusal::Help => ends_as_display(exit@),
                    Refusal::Version => ends_as_display(exit@) || ends_as_usage_error(exit@),
                }
                &&& *final(policy) == *old(policy)
            },
        },
        unknown_command(argv.deep_view()) is Some ==> {
            &&& next matches Ok(found) && found@ is Unknown
            &&& *final(policy) == *old(policy)
        },
        unknown_command(argv.deep_view()) is None ==> (verdict(
            cli_command(*package, current_dir@),
            argv.deep_view(),
        ) matches Ok(matches) ==> abides(cli_command(*package, current_dir@), matches)),
{
    proof {
        if let Some(word) = unknown_command(argv.deep_view()) {
            law_unknown_command_word(argv.deep_view(), current_dir@, *old(policy));
        }
    }
    match get_args(package, current_dir, argv) {
        Ok(invocation) => Ok(route(invocation, current_dir, policy)),
        Err(error) => Err(refuse(error)),
    }
}

/// A first argument that is a command word and selects no command of the
/// program routes to the unknown command, whatever follows it, and leaves
/// the colour policy as it was.
pub proof fn law_unknown_command_word(
    argv: Seq<Seq<char>>,
    current_dir: Seq<char>,
    before: OutputPolicy,
)
    requires
        unknown_command(argv) is Some,
    ensures
        route_of(unknown_invocation(unknown_command(argv)->0), current_dir) is Unknown,
        policy_of(before, unknown_invocation(unknown_command(argv)->0)) == before,
{
    let word = unknown_command(argv)->0;
    assert(!names_command(word));
    before.law_absent_flag_keeps();
}

/// What is left to the parser: an argument vector without arguments, one
/// whose first argument begins with a hyphen, as a flag does, one whose
/// first argument has a dot or a separator in it, as a path to a file or
/// into a directory has, and one whose first argument selects a command.
pub proof fn law_left_to_the_parser(argv: Seq<Seq<char>>)
    requires
        argv.len() >= 2 ==> {
            ||| argv[1].len() > 0 && argv[1][0] == '-'
            ||| exists|i: int|
                0 <= i < argv[1].len() && (#[trigger] argv[1][i] == '.' || argv[1][i] == '/'
                    || argv[1][i] == '\\')
            ||| names_command(argv[1])
        },
    ensures
        unknown_command(argv) is None,
{
}

/// The words that select a command are the names and the aliases of the
/// declared subcommands, and no others.
pub proof fn law_known_commands_are_declared(package: Package, current_dir: Seq<char>, word: Seq<char>)
    ensures
        names_command(word) <==> exists|k: int|
            0 <= k < cli_command(package, current_dir).subcommands.len() && {
                let sub = #[trigger] cli_command(package, current_dir).subcommands[k];
                sub.name == word || sub.visible_aliases.contains(word)
            },
{
    let subs = cli_command(package, current_dir).subcommands;
    assert(subs[0].visible_aliases[0] == "l"@);
    assert(subs[1].visible_aliases[0] == "f"@);
    assert(subs[2].visible_aliases[0] == "c"@);
    if names_command(word) {
        if word == "list"@ || word == "l"@ {
            assert(subs[0].name == word || subs[0].visible_aliases.contains(word));
        } else if word == "fix"@ || word == "f"@ {
            assert(subs[1].name == word || subs[1].visible_aliases.contains(word));
        } else {
            assert(subs[2].name == word || subs[2].visible_aliases.contains(word));
        }
    }
}

/// The names of the subcommands differ from one another.
proof fn lemma_subcommands_differ()
    ensures
        "list"@ != "fix"@,
        "list"@ != "compare"@,
        "fix"@ != "compare"@,
{
    reveal_strlit("list");
    reveal_strlit("fix");
    reveal_strlit("compare");
    assert("list"@.len() == 4);
    assert("fix"@.len() == 3);
    assert("compare"@.len() == 7);
}

/// The route is that of the command which the marker selects, and of no
/// other: one path runs in a run.
pub proof fn law_route_follows_selection(invocation: InvocationView, current_dir: Seq<char>)
    ensures
        route_of(invocation, current_dir).command() == selection(invocation.marker()),
{
}

/// What the parser matches selects a command that the program knows: the
/// unknown command is reached by a command word alone, and never through
/// the parser.
pub proof fn law_matches_select_known_commands(
    package: Package,
    current_dir: Seq<char>,
    matches: Matches,
)
    requires
        abides(cli_command(package, current_dir), matches),
    ensures
        route_of(invocation_in(matches), current_dir).command() != Command::Unknown,
{
    if let Some(selected) = matches.subcommand {
        let schema = cli_command(package, current_dir);
        let k = choose|k: int|
            0 <= k < schema.subcommands.len() && (#[trigger] schema.subcommands[k]).name
                == selected.0 && abides(schema.subcommands[k], *selected.1);
        assert(k == 0 || k == 1 || k == 2);
    }
}

/// A comparison is routed to only with two inputs at least: with fewer the
/// parser refuses the invocation.
pub proof fn law_compare_has_two_inputs(
    package: Package,
    current_dir: Seq<char>,
    matches: Matches,
)
    requires
        abides(cli_command(package, current_dir), matches),
        route_of(invocation_in(matches), current_dir).command() == Command::Compare,
    ensures
        route_of(invocation_in(matches), current_dir) matches RouteView::Compare(context)
            && context.inputs.len() >= 2,
{
    lemma_subcommands_differ();
    let schema = cli_command(package, current_dir);
    let selected = matches.subcommand->0;
    let k = choose|k: int|
        0 <= k < schema.subcommands.len() && (#[trigger] schema.subcommands[k]).name == selected.0
            && abides(schema.subcommands[k], *selected.1);
    assert(k == 2);
    assert(abides(compare_command(), *selected.1));
    assert(compare_command().args[0] == compared_declaration());
    assert(satisfied(compare_command().args[0], *selected.1));
}

/// Without a subcommand and without an input, the check works on the
/// working directory and on nothing else.
pub proof fn law_default_input(invocation: InvocationView, current_dir: Seq<char>)
    requires
        invocation.subcommand is None,
        invocation.root.inputs.len() == 0,
    ensures
        route_of(invocation, current_dir) matches RouteView::Check(context) && context.inputs
            == seq![current_dir],
{
}

/// Every context that is handed to an operation names an input.
pub proof fn law_context_has_input(invocation: InvocationView, current_dir: Seq<char>)
    ensures
        route_of(invocation, current_dir).context() matches Some(context)
            ==> context.well_formed(),
{
}

/// Only `fix` is told to keep no backup: on any other path `no_backup` is
/// unset, whatever was matched.
pub proof fn law_no_backup_is_of_fix_alone(invocation: InvocationView, current_dir: Seq<char>)
    ensures
        route_of(invocation, current_dir).context() matches Some(context) ==> (context.no_backup
            ==> route_of(invocation, current_dir).command() == Command::Fix
            && invocation.subcommand->0.args.no_backup),
{
}

/// A comparison is handed its inputs, `quiet` and `no_color`, and nothing
/// of what a scan for rules takes.
pub proof fn law_compare_context_is_restricted(invocation: InvocationView, current_dir: Seq<char>)
    ensures
        route_of(invocation, current_dir) matches RouteView::Compare(context) ==> {
            &&& context.excludes.len() == 0
            &&& context.skips.len() == 0
            &&& !context.recursive
            &&& !context.no_backup
            &&& context.quiet == invocation.subcommand->0.args.quiet
            &&& context.no_color == invocation.subcommand->0.args.no_color
        },
{
}

/// A `--no-color` flag at the root, or under `compare`, leaves colour
/// switched off after routing.
pub proof fn law_no_color_disables(before: OutputPolicy, invocation: InvocationView)
    requires
        invocation.root.no_color || (selection(invocation.marker()) == Command::Compare
            && invocation.subcommand->0.args.no_color),
    ensures
        policy_of(before, invocation).color_disabled(),
{
    broadcast use OutputPolicy::lemma_applied;

}

/// Without any `--no-color` flag routing leaves the policy as it was.
pub proof fn law_color_kept(before: OutputPolicy, invocation: InvocationView)
    requires
        !invocation.root.no_color,
        selection(invocation.marker()) == Command::Compare ==> !invocation.subcommand->0.args.no_color,
    ensures
        policy_of(before, invocation) == before,
{
    before.law_absent_flag_keeps();
}

/// A usage error ends the run with code 1 and its message on the error
/// stream; a displayed text ends it with code 0 and the text on the
/// standard output.
pub proof fn law_refusal_exits(message: String)
    ensures
        ends_as_usage_error(refusal_of(ParseError::Usage { message })),
        refusal_of(ParseError::Usage { message }).errors == seq![message@],
        ends_as_display(refusal_of(ParseError::Display { message })),
        refusal_of(ParseError::Display { message }).output == seq![message@],
{
}

/// The check ends with code 0 where it counted no warning, and with code 1
/// where it counted any.
pub proof fn law_check_exit_code(warnings: usize)
    ensures
        exit_code_of(Outcome::Checked { warnings }) == (if warnings == 0 {
            0int
        } else {
            1int
        }),
{
}

/// A listing ends with code 0 and prints the names, as many lines as there
/// are names and in their order, and nothing on the error stream.
pub proof fn law_listing(names: Vec<String>)
    ensures
        exit_of(Outcome::Listed { names }).code == 0,
        exit_of(Outcome::Listed { names }).output == names.deep_view(),
        exit_of(Outcome::Listed { names }).output.len() == names.len(),
        exit_of(Outcome::Listed { names }).errors.len() == 0,
{
}

} // verus!
