//! The argument schema of the linter: the flags and options of the default
//! check, and the `list`, `fix` and `compare` subcommands.
//!
//! Every builder states the exact declaration that it returns. The flags
//! that the check and `fix` share come from one function, [`common_args`],
//! so the two cannot drift apart.

use crate::command::{
    app_about, app_arg, app_author, app_new, app_setting, app_subcommand, app_usage, app_version,
    app_version_short, app_visible_alias, command, subcommand_with_name, CommandDecl, Setting,
};
use crate::declaration::{
    arg_default_value, arg_help, arg_index, arg_long, arg_min_values, arg_multiple, arg_required,
    arg_short, arg_value_name, arg_with_name, declared, Declaration,
};
use clap::{App, Arg};
use vstd::prelude::*;

verus! {

/// What the program says of itself on its help screen.
#[derive(Clone, Copy, Debug)]
pub struct Package<'a> {
    /// The name of the program.
    pub name: &'a str,
    /// One sentence on what the program does.
    pub about: &'a str,
    /// Who wrote it.
    pub authors: &'a str,
    /// The version that `-v` and `--version` display.
    pub version: &'a str,
}

/// The declarations that a sequence of arguments holds, one by one.
pub open spec fn declarations(args: Seq<Arg>) -> Seq<Declaration> {
    args.map_values(|arg: Arg| declared(arg))
}

/// `-q`, `--quiet`.
pub open spec fn quiet_declaration() -> Declaration {
    Declaration {
        short: Some('q'),
        long: Some("quiet"@),
        help: Some("Doesn't display additional information"@),
        ..Declaration::named("quiet"@)
    }
}

/// `--no-color`.
pub open spec fn no_color_declaration() -> Declaration {
    Declaration {
        long: Some("no-color"@),
        help: Some("Turns off the colored output"@),
        ..Declaration::named("no-color"@)
    }
}

/// The paths to work on: positional, repeating, and the working directory
/// when none is given.
pub open spec fn input_declaration(current_dir: Seq<char>) -> Declaration {
    Declaration {
        help: Some("files or paths"@),
        index: Some(1u64),
        default_value: Some(current_dir),
        takes_value: true,
        required: true,
        multiple: true,
        ..Declaration::named("input"@)
    }
}

/// `-e`, `--exclude`, with a file name, repeating.
pub open spec fn exclude_declaration() -> Declaration {
    Declaration {
        short: Some('e'),
        long: Some("exclude"@),
        value_names: seq!["FILE_NAME"@],
        help: Some("Excludes files from check"@),
        multiple: true,
        takes_value: true,
        ..Declaration::named("exclude"@)
    }
}

/// `-s`, `--skip`, with the name of a check, repeating.
pub open spec fn skip_declaration() -> Declaration {
    Declaration {
        short: Some('s'),
        long: Some("skip"@),
        value_names: seq!["CHECK_NAME"@],
        help: Some("Skips checks"@),
        multiple: true,
        takes_value: true,
        ..Declaration::named("skip"@)
    }
}

/// `-r`, `--recursive`.
pub open spec fn recursive_declaration() -> Declaration {
    Declaration {
        short: Some('r'),
        long: Some("recursive"@),
        help: Some("Recursively searches and checks .env files"@),
        ..Declaration::named("recursive"@)
    }
}

/// `--no-backup`, of `fix` alone.
pub open spec fn no_backup_declaration() -> Declaration {
    Declaration {
        long: Some("no-backup"@),
        help: Some("Prevents backing up .env files"@),
        ..Declaration::named("no-backup"@)
    }
}

/// The files to compare: positional, repeating, required, two at least.
pub open spec fn compared_declaration() -> Declaration {
    Declaration {
        help: Some("Files to compare"@),
        index: Some(1u64),
        multiple: true,
        min_values: Some(2u64),
        takes_value: true,
        required: true,
        ..Declaration::named("input"@)
    }
}

/// What the check and `fix` share, in the order of declaration.
pub open spec fn common_declarations(current_dir: Seq<char>) -> Seq<Declaration> {
    seq![
        input_declaration(current_dir),
        exclude_declaration(),
        skip_declaration(),
        recursive_declaration(),
        no_color_declaration(),
        quiet_declaration(),
    ]
}

/// The flag that silences additional information.
pub fn quiet_flag() -> (arg: Arg<'static, 'static>)
    ensures
        declared(arg) == quiet_declaration(),
{
    proof {
        reveal_strlit("quiet");
    }
    let arg = arg_with_name("quiet");
    let arg = arg_short(arg, 'q');
    let arg = arg_long(arg, "quiet");
    arg_help(arg, "Doesn't display additional information")
}

/// The flag that turns coloured output off.
pub fn no_color_flag() -> (arg: Arg<'static, 'static>)
    ensures
        declared(arg) == no_color_declaration(),
{
    proof {
        reveal_strlit("no-color");
    }
    let arg = arg_with_name("no-color");
    let arg = arg_long(arg, "no-color");
    arg_help(arg, "Turns off the colored output")
}

/// The arguments that the check and `fix` share. The working directory is
/// the default of `input` and is used for nothing else.
pub fn common_args<'a>(current_dir: &'a str) -> (args: Vec<Arg<'a, 'a>>)
    ensures
        declarations(args@) == common_declarations(current_dir@),
{
    proof {
        reveal_strlit("exclude");
        reveal_strlit("skip");
        reveal_strlit("recursive");
    }
    let input = arg_with_name("input");
    let input = arg_help(input, "files or paths");
    let input = arg_index(input, 1);
    let input = arg_default_value(input, current_dir);
    let input = arg_required(input, true);
    let input = arg_multiple(input, true);

    let exclude = arg_with_name("exclude");
    let exclude = arg_short(exclude, 'e');
    let exclude = arg_long(exclude, "exclude");
    let exclude = arg_value_name(exclude, "FILE_NAME");
    let exclude = arg_help(exclude, "Excludes files from check");
    let exclude = arg_multiple(exclude, true);

    let skip = arg_with_name("skip");
    let skip = arg_short(skip, 's');
    let skip = arg_long(skip, "skip");
    let skip = arg_value_name(skip, "CHECK_NAME");
    let skip = arg_help(skip, "Skips checks");
    let skip = arg_multiple(skip, true);

    let recursive = arg_with_name("recursive");
    let recursive = arg_short(recursive, 'r');
    let recursive = arg_long(recursive, "recursive");
    let recursive = arg_help(recursive, "Recursively searches and checks .env files");

    let mut args: Vec<Arg<'a, 'a>> = Vec::new();
    args.push(input);
    args.push(exclude);
    args.push(skip);
    args.push(recursive);
    args.push(no_color_flag());
    args.push(quiet_flag());
    assert(declarations(args@) =~= common_declarations(current_dir@));
    args
}

/// `list`, alias `l`: no argument of its own.
pub open spec fn list_command() -> CommandDecl {
    CommandDecl {
        settings: set![Setting::ColoredHelp],
        visible_aliases: seq!["l"@],
        usage: Some("dotenv-linter list"@),
        about: Some("Shows list of available checks"@),
        ..CommandDecl::named("list"@)
    }
}

/// `fix`, alias `f`: what the check takes, and `--no-backup`.
pub open spec fn fix_command(current_dir: Seq<char>) -> CommandDecl {
    CommandDecl {
        settings: set![Setting::ColoredHelp],
        visible_aliases: seq!["f"@],
        args: common_declarations(current_dir).push(no_backup_declaration()),
        usage: Some("dotenv-linter fix [FLAGS] [OPTIONS] <input>..."@),
        about: Some("Automatically fixes warnings"@),
        ..CommandDecl::named("fix"@)
    }
}

/// `compare`, alias `c`: two files at least, `--no-color` and `--quiet`.
pub open spec fn compare_command() -> CommandDecl {
    CommandDecl {
        settings: set![Setting::ColoredHelp],
        visible_aliases: seq!["c"@],
        args: seq![compared_declaration(), no_color_declaration(), quiet_declaration()],
        about: Some("Compares if files have the same keys"@),
        usage: Some("dotenv-linter compare <files>..."@),
        ..CommandDecl::named("compare"@)
    }
}

/// The whole schema: the default check at the root, and under it `list`,
/// `fix` and `compare`.
pub open spec fn cli_command(package: Package, current_dir: Seq<char>) -> CommandDecl {
    CommandDecl {
        settings: set![
            Setting::ColoredHelp,
            Setting::DisableHelpSubcommand,
            Setting::VersionlessSubcommands,
        ],
        about: Some(package.about@),
        author: Some(package.authors@),
        version: Some(package.version@),
        version_short: Some('v'),
        args: common_declarations(current_dir),
        subcommands: seq![list_command(), fix_command(current_dir), compare_command()],
        ..CommandDecl::named(package.name@)
    }
}

/// The command `base` with `decls` appended to its arguments.
spec fn extended(base: CommandDecl, decls: Seq<Declaration>) -> CommandDecl {
    CommandDecl { args: base.args + decls, ..base }
}

/// Appends the arguments to the command, in their order.
fn with_args<'a>(app: App<'a, 'a>, args: &Vec<Arg<'a, 'a>>) -> (out: App<'a, 'a>)
    requires
        forall|i: int|
            0 <= i < args.len() ==> extended(command(app), declarations(args@).take(i)).admits(
                #[trigger] declarations(args@)[i],
            ),
    ensures
        command(out) == extended(command(app), declarations(args@)),
{
    let ghost base = command(app);
    let ghost decls = declarations(args@);
    let mut out = app;
    let mut i: usize = 0;
    assert(extended(base, decls.take(0)) =~~= base);
    while i < args.len()
        invariant
            i <= args.len(),
            decls == declarations(args@),
            command(out) == extended(base, decls.take(i as int)),
            forall|k: int|
                0 <= k < args.len() ==> extended(base, decls.take(k)).admits(#[trigger] decls[k]),
        decreases args.len() - i,
    {
        assert(extended(base, decls.take(i as int)).admits(decls[i as int]));
        assert(decls[i as int] == declared(args@[i as int]));
        out = app_arg(out, &args[i]);
        assert(decls.take(i + 1) =~= decls.take(i as int).push(decls[i as int]));
        assert(command(out) =~~= extended(base, decls.take(i + 1)));
        i = i + 1;
    }
    assert(decls.take(i as int) =~= decls);
    out
}

/// The `list` subcommand.
pub fn list_subcommand<'a>() -> (app: App<'a, 'a>)
    ensures
        command(app) == list_command(),
{
    let app = subcommand_with_name("list");
    let app = app_setting(app, Setting::ColoredHelp);
    let app = app_visible_alias(app, "l");
    let app = app_usage(app, "dotenv-linter list");
    let app = app_about(app, "Shows list of available checks");
    assert(command(app) =~~= list_command());
    app
}

/// The `fix` subcommand.
pub fn fix_subcommand<'a>(current_dir: &'a str) -> (app: App<'a, 'a>)
    ensures
        command(app) == fix_command(current_dir@),
{
    let app = subcommand_with_name("fix");
    let app = app_setting(app, Setting::ColoredHelp);
    let app = app_visible_alias(app, "f");
    let common = common_args(current_dir);
    proof {
        lemma_common_admitted(command(app), current_dir@);
    }
    let app = with_args(app, &common);
    proof {
        lemma_names_differ();
    }
    let no_backup = arg_with_name("no-backup");
    let no_backup = arg_long(no_backup, "no-backup");
    let no_backup = arg_help(no_backup, "Prevents backing up .env files");
    let app = app_arg(app, &no_backup);
    let app = app_usage(app, "dotenv-linter fix [FLAGS] [OPTIONS] <input>...");
    let app = app_about(app, "Automatically fixes warnings");
    assert(command(app) =~~= fix_command(current_dir@));
    app
}

/// The `compare` subcommand.
pub fn compare_subcommand<'a>() -> (app: App<'a, 'a>)
    ensures
        command(app) == compare_command(),
{
    proof {
        lemma_names_differ();
    }
    let app = subcommand_with_name("compare");
    let app = app_setting(app, Setting::ColoredHelp);
    let app = app_visible_alias(app, "c");
    let input = arg_with_name("input");
    let input = arg_help(input, "Files to compare");
    let input = arg_index(input, 1);
    let input = arg_multiple(input, true);
    let input = arg_min_values(input, 2);
    let input = arg_required(input, true);
    let app = app_arg(app, &input);
    let app = app_arg(app, &no_color_flag());
    let app = app_arg(app, &quiet_flag());
    let app = app_about(app, "Compares if files have the same keys");
    let app = app_usage(app, "dotenv-linter compare <files>...");
    assert(command(app) =~~= compare_command());
    app
}

/// The whole schema of the command line. The working directory is the
/// default of `input`, at the root and under `fix`.
pub fn cli<'a>(package: &Package<'a>, current_dir: &'a str) -> (app: App<'a, 'a>)
    ensures
        command(app) == cli_command(*package, current_dir@),
{
    let app = app_new(package.name);
    let app = app_setting(app, Setting::ColoredHelp);
    let app = app_setting(app, Setting::DisableHelpSubcommand);
    let app = app_setting(app, Setting::VersionlessSubcommands);
    let app = app_about(app, package.about);
    let app = app_author(app, package.authors);
    let app = app_version(app, package.version);
    let app = app_version_short(app, 'v');
    let common = common_args(current_dir);
    proof {
        lemma_common_admitted(command(app), current_dir@);
    }
    let app = with_args(app, &common);
    assert(command(app).args =~= common_declarations(current_dir@));
    let app = app_subcommand(app, list_subcommand());
    let app = app_subcommand(app, fix_subcommand(current_dir));
    let app = app_subcommand(app, compare_subcommand());
    assert(command(app).subcommands =~= cli_command(*package, current_dir@).subcommands);
    assert(command(app) =~~= cli_command(*package, current_dir@));
    app
}

/// The names of the declared arguments differ from one another. Their long
/// forms are the same texts.
proof fn lemma_names_differ()
    ensures
        "input"@.len() == 5 && "input"@[0] == 'i',
        "exclude"@.len() == 7,
        "skip"@.len() == 4,
        "recursive"@.len() == 9 && "recursive"@[0] == 'r',
        "no-color"@.len() == 8 && "no-color"@[0] == 'n',
        "quiet"@.len() == 5 && "quiet"@[0] == 'q',
        "no-backup"@.len() == 9 && "no-backup"@[0] == 'n',
{
    reveal_strlit("input");
    reveal_strlit("exclude");
    reveal_strlit("skip");
    reveal_strlit("recursive");
    reveal_strlit("no-color");
    reveal_strlit("quiet");
    reveal_strlit("no-backup");
}

/// A command without arguments admits the shared declarations one by one.
proof fn lemma_common_admitted(base: CommandDecl, current_dir: Seq<char>)
    requires
        base.args.len() == 0,
    ensures
        forall|i: int|
            0 <= i < common_declarations(current_dir).len() ==> extended(
                base,
                common_declarations(current_dir).take(i),
            ).admits(#[trigger] common_declarations(current_dir)[i]),
{
    lemma_names_differ();
}

/// Every command of the schema is consistent: no two of its arguments
/// share a name, a short form or a long form, each is kept as it is
/// declared, and its one positional argument stands first.
pub proof fn law_schema_consistent(package: Package, current_dir: Seq<char>)
    ensures
        cli_command(package, current_dir).consistent(),
        list_command().consistent(),
        fix_command(current_dir).consistent(),
        compare_command().consistent(),
{
    lemma_names_differ();
}

/// The check and `fix` declare their shared arguments identically: `fix`
/// holds the arguments of the check, in their order, and after them
/// `--no-backup`.
pub proof fn law_fix_shares_the_check_arguments(package: Package, current_dir: Seq<char>)
    ensures
        fix_command(current_dir).args == cli_command(package, current_dir).args.push(
            no_backup_declaration(),
        ),
        forall|i: int|
            0 <= i < cli_command(package, current_dir).args.len() ==> fix_command(
                current_dir,
            ).args[i] == cli_command(package, current_dir).args[i],
{
}

/// `compare` scans for no rule: it declares its files, `--no-color` and
/// `--quiet`, and neither `exclude` nor `skip` nor `recursive`. `list`
/// declares no argument at all.
pub proof fn law_compare_and_list_omit_the_scan_arguments()
    ensures
        compare_command().args.len() == 3,
        forall|i: int|
            0 <= i < compare_command().args.len() ==> {
                let name = (#[trigger] compare_command().args[i]).name;
                name != "exclude"@ && name != "skip"@ && name != "recursive"@
            },
        list_command().args.len() == 0,
{
    lemma_names_differ();
}

} // verus!
