//! Declarations of commands: a name, texts for the help screen, the declared
//! arguments, and the subcommands.
//!
//! The executable value is a `clap::App`; [`command`] names the record that
//! such a value stands for, and each builder below says how one `clap` call
//! changes it. An argument can only be added to a command that
//! [admits](CommandDecl::admits) it, so a command that holds two arguments of
//! one identity cannot be built.
//!
//! `clap` keeps the positional argument of a command apart from its flags
//! and options, by its position and without a short or long form, and keeps
//! the flags and options in the order in which they were added. The record
//! lists the positional argument first and the flags and options after it;
//! a positional argument is therefore admitted only as the first argument,
//! at position 1 and without a short or long form. `clap` also lets a
//! positional argument with a minimum of values repeat, and keeps nothing
//! about values for a flag, which takes none; a declaration is admitted
//! only where it says the same.

use crate::declaration::{declared, Declaration};
use clap::{App, Arg};
use vstd::prelude::*;

verus! {

/// The parser settings that this library switches on.
#[derive(Clone, Copy, Debug, PartialEq, Eq, Structural)]
pub enum Setting {
    /// Help screens are rendered with colours.
    ColoredHelp,
    /// No `help` subcommand is added beside the help flag.
    DisableHelpSubcommand,
    /// Subcommands have no version flag of their own.
    VersionlessSubcommands,
}

/// One declared command, with everything under it.
#[verifier::ext_equal]
pub struct CommandDecl {
    /// The name; for a subcommand, the word that selects it.
    pub name: Seq<char>,
    /// The parser settings that are switched on.
    pub settings: Set<Setting>,
    /// The description, the author and the version shown on the help screen.
    pub about: Option<Seq<char>>,
    pub author: Option<Seq<char>>,
    pub version: Option<Seq<char>>,
    /// The one-letter form of the version flag.
    pub version_short: Option<char>,
    /// The usage line that replaces the generated one.
    pub usage: Option<Seq<char>>,
    /// Further words that select the command and are shown to the user.
    pub visible_aliases: Seq<Seq<char>>,
    /// The declared arguments: the positional one first, where there is
    /// one, then the flags and options in the order of declaration.
    pub args: Seq<Declaration>,
    /// The subcommands, in the order of declaration.
    pub subcommands: Seq<CommandDecl>,
}

impl CommandDecl {
    /// The command that holds a name and nothing else.
    pub open spec fn named(name: Seq<char>) -> CommandDecl {
        CommandDecl {
            name,
            settings: Set::empty(),
            about: None,
            author: None,
            version: None,
            version_short: None,
            usage: None,
            visible_aliases: Seq::empty(),
            args: Seq::empty(),
            subcommands: Seq::empty(),
        }
    }

    /// A command admits a declaration that clashes with none of its own
    /// and is [kept as declared](Declaration::kept_as_declared). A
    /// positional one is admitted only as the first argument of the command.
    pub open spec fn admits(self, decl: Declaration) -> bool {
        &&& forall|i: int| 0 <= i < self.args.len() ==> !(#[trigger] self.args[i]).clashes_with(decl)
        &&& decl.kept_as_declared()
        &&& decl.is_positional() ==> self.args.len() == 0
    }

    /// No two arguments of the command share a name, a short form or a long
    /// form; each is kept as declared; at most one is positional, and that
    /// one stands first.
    pub open spec fn consistent(self) -> bool {
        &&& forall|i: int, j: int|
            0 <= i < j < self.args.len() ==> !(#[trigger] self.args[i]).clashes_with(
                #[trigger] self.args[j],
            )
        &&& forall|i: int|
            0 <= i < self.args.len() ==> (#[trigger] self.args[i]).kept_as_declared()
        &&& forall|i: int|
            0 <= i < self.args.len() && (#[trigger] self.args[i]).is_positional() ==> i == 0
    }
}

/// `clap::App`: one command as the parser takes it. Nothing of its inside
/// is known here but through [`command`].
#[verifier::external_type_specification]
#[verifier::external_body]
pub struct ExApp<'a, 'b>(App<'a, 'b>) where 'a: 'b;

/// The command that a `clap::App` holds: its name, settings and texts, its
/// positional argument, if it has one, followed by its flags and options in
/// the order in which they were added, and its subcommands in that order.
pub uninterp spec fn command(app: App) -> CommandDecl;

/// `clap::App::new`: a fresh command that holds the given name, with every
/// other part unset.
#[verifier::external_body]
pub(crate) fn app_new<'a>(name: &str) -> (app: App<'a, 'a>)
    ensures
        command(app) == CommandDecl::named(name@),
{
    App::new(name)
}

/// `clap::SubCommand::with_name`: a fresh command to be used as a
/// subcommand, as `clap::App::new` makes it.
#[verifier::external_body]
pub(crate) fn subcommand_with_name<'a>(name: &str) -> (app: App<'a, 'a>)
    ensures
        command(app) == CommandDecl::named(name@),
{
    clap::SubCommand::with_name(name)
}

/// `clap::App::setting`: switches one parser setting on.
#[verifier::external_body]
pub(crate) fn app_setting<'a>(app: App<'a, 'a>, setting: Setting) -> (out: App<'a, 'a>)
    ensures
        command(out) == (CommandDecl {
            settings: command(app).settings.insert(setting),
            ..command(app)
        }),
{
    app.setting(
        match setting {
            Setting::ColoredHelp => clap::AppSettings::ColoredHelp,
            Setting::DisableHelpSubcommand => clap::AppSettings::DisableHelpSubcommand,
            Setting::VersionlessSubcommands => clap::AppSettings::VersionlessSubcommands,
        },
    )
}

/// `clap::App::about`: sets the description.
#[verifier::external_body]
pub(crate) fn app_about<'a>(app: App<'a, 'a>, text: &'a str) -> (out: App<'a, 'a>)
    ensures
        command(out) == (CommandDecl { about: Some(text@), ..command(app) }),
{
    app.about(text)
}

/// `clap::App::author`: sets the author.
#[verifier::external_body]
pub(crate) fn app_author<'a>(app: App<'a, 'a>, text: &'a str) -> (out: App<'a, 'a>)
    ensures
        command(out) == (CommandDecl { author: Some(text@), ..command(app) }),
{
    app.author(text)
}

/// `clap::App::version`: sets the version.
#[verifier::external_body]
pub(crate) fn app_version<'a>(app: App<'a, 'a>, text: &'a str) -> (out: App<'a, 'a>)
    ensures
        command(out) == (CommandDecl { version: Some(text@), ..command(app) }),
{
    app.version(text)
}

/// `clap::App::version_short`: sets the short form of the version flag to
/// the first character that is not a hyphen. Here the form is one character,
/// which is no hyphen.
#[verifier::external_body]
pub(crate) fn app_version_short<'a>(app: App<'a, 'a>, form: char) -> (out: App<'a, 'a>)
    requires
        form != '-',
    ensures
        command(out) == (CommandDecl { version_short: Some(form), ..command(app) }),
{
    app.version_short(form.to_string())
}

/// `clap::App::usage`: sets the usage line.
#[verifier::external_body]
pub(crate) fn app_usage<'a>(app: App<'a, 'a>, text: &'a str) -> (out: App<'a, 'a>)
    ensures
        command(out) == (CommandDecl { usage: Some(text@), ..command(app) }),
{
    app.usage(text)
}

/// `clap::App::visible_alias`: appends an alias that is shown to the user.
#[verifier::external_body]
pub(crate) fn app_visible_alias<'a>(app: App<'a, 'a>, alias: &'a str) -> (out: App<'a, 'a>)
    ensures
        command(out) == (CommandDecl {
            visible_aliases: command(app).visible_aliases.push(alias@),
            ..command(app)
        }),
{
    app.visible_alias(alias)
}

/// `clap::App::arg`: adds a copy of the argument to the command. A flag or
/// an option comes after the flags and options that the command has; a
/// positional argument is kept by its position, and is admitted only into a
/// command without arguments, so that it is the first of the record. `clap`
/// keeps of a positional argument no short or long form and lets it repeat
/// where it has a minimum of values, and keeps of a flag nothing about
/// values; an admitted argument is one that is kept as it was declared. In
/// a debug build `clap` panics on an argument whose name, short form, long
/// form or position is taken, and later on positions that do not count up
/// from 1; a command takes only what it admits.
#[verifier::external_body]
pub(crate) fn app_arg<'a>(app: App<'a, 'a>, arg: &Arg<'a, 'a>) -> (out: App<'a, 'a>)
    requires
        command(app).admits(declared(*arg)),
    ensures
        command(out) == (CommandDecl {
            args: command(app).args.push(declared(*arg)),
            ..command(app)
        }),
{
    app.arg(arg)
}

/// `clap::App::subcommand`: appends a subcommand.
#[verifier::external_body]
pub(crate) fn app_subcommand<'a>(app: App<'a, 'a>, sub: App<'a, 'a>) -> (out: App<'a, 'a>)
    ensures
        command(out) == (CommandDecl {
            subcommands: command(app).subcommands.push(command(sub)),
            ..command(app)
        }),
{
    app.subcommand(sub)
}

} // verus!
