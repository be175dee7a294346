//! The parse of one invocation against the schema.
//!
//! An argument vector whose first argument is a command word that selects
//! no command of the program asks for the unknown command, and is not
//! parsed. Any other is parsed, which is `clap`'s work. What `clap` decides
//! on a schema and an argument vector has the name [`verdict`]: the
//! matches, or the kind of refusal. [`get_args`] returns the invocation
//! that those matches stand for, a usage error for a fault of the
//! invocation, and the displayed text for a request for help.

use crate::command::{command, CommandDecl};
use crate::declaration::Declaration;
use crate::invocation::{
    invocation_in, read_invocation, unknown_invocation, Invocation, InvocationView,
};
use crate::matches::{matched, Matches};
use crate::schema::{cli, cli_command, Package};
use crate::word::{unknown_command, unknown_command_word};
use clap::{App, ArgMatches};
use vstd::prelude::*;

verus! {

/// Why an invocation was not matched.
#[derive(Clone, Debug, PartialEq, Eq)]
pub enum ParseError {
    /// The arguments do not fit the schema: one is unknown, or a required
    /// value is missing. The message belongs on the error stream. The
    /// parser reports in the same way a version text that it could not
    /// write.
    Usage { message: String },
    /// The help or the version text was asked for. The message belongs on
    /// the standard output. It is the help text; for the version it is
    /// empty, since the parser has written the version there already.
    Display { message: String },
}

/// `clap::Error`: what the parser returns in place of matches. Nothing of
/// its inside is known here.
#[verifier::external_type_specification]
#[verifier::external_body]
pub struct ExError(clap::Error);

/// Whether `clap` counts the error as a fault, to be reported on the error
/// stream: every error but the display of the help or the version text.
pub uninterp spec fn is_fault(error: clap::Error) -> bool;

/// Why the parser returns no matches.
pub enum Refusal {
    /// The arguments do not fit the schema.
    Fault,
    /// The arguments ask for the help text.
    Help,
    /// The arguments ask for the version.
    Version,
}

/// What `clap` decides on an argument vector, whose first entry is the name
/// of the program, under a schema: the matches that it finds, or why it
/// finds none.
pub uninterp spec fn verdict(schema: CommandDecl, argv: Seq<Seq<char>>) -> Result<Matches, Refusal>;

/// What the parser has checked of a declared argument before it accepts an
/// invocation: a required argument was matched, and an argument that takes
/// values and was matched has as many values as its declared minimum.
pub open spec fn satisfied(decl: Declaration, matches: Matches) -> bool {
    &&& decl.required ==> matches.values.dom().contains(decl.name)
    &&& (decl.takes_value && matches.values.dom().contains(decl.name)) ==> (decl.min_values matches Some(
        least,
    ) ==> matches.values[decl.name].len() >= least)
}

/// Whether matches abide by a schema: every declared argument is
/// satisfied, and a selected subcommand bears the name of a declared one,
/// by whose schema its own matches abide.
pub open spec fn abides(schema: CommandDecl, matches: Matches) -> bool
    decreases matches,
{
    &&& forall|i: int| 0 <= i < schema.args.len() ==> satisfied(#[trigger] schema.args[i], matches)
    &&& matches.subcommand matches Some(selected) ==> exists|k: int|
        0 <= k < schema.subcommands.len() && (#[trigger] schema.subcommands[k]).name == selected.0
            && abides(schema.subcommands[k], *selected.1)
}

/// `clap::App::get_matches_from_safe`: parses the argument vector and
/// returns the matches or the error, without leaving the process. Matches
/// are returned only after validation: they abide by the schema. A fault of
/// the invocation comes back as an error that counts as a fault. A request
/// for the help text comes back as an error that holds the text and counts
/// as no fault. On a request for the version `clap` writes the version to
/// the standard output itself; the error counts as no fault where that
/// succeeded and as a fault where it did not, so nothing is said of it.
#[verifier::external_body]
fn get_matches_from_safe<'a>(app: App<'a, 'a>, argv: &Vec<String>) -> (parsed: Result<
    ArgMatches<'a>,
    clap::Error,
>)
    ensures
        parsed matches Ok(matches) ==> abides(command(app), matched(matches)),
        match parsed {
            Ok(matches) => verdict(command(app), argv.deep_view()) == Ok::<Matches, Refusal>(
                matched(matches),
            ),
            Err(error) => match verdict(command(app), argv.deep_view()) {
                Ok(_) => false,
                Err(Refusal::Fault) => is_fault(error),
                Err(Refusal::Help) => !is_fault(error),
                Err(Refusal::Version) => true,
            },
        },
{
    app.get_matches_from_safe(argv)
}

/// `clap::Error::use_stderr`: whether the error is a fault of the
/// invocation, to be reported on the error stream.
#[verifier::external_body]
fn error_use_stderr(error: &clap::Error) -> (fault: bool)
    ensures
        fault == is_fault(*error),
{
    error.use_stderr()
}

/// The field `message` of `clap::Error`: the text for the user. It is
/// rendered for the terminal at hand, so nothing is said of it.
#[verifier::external_body]
fn error_message(error: &clap::Error) -> String {
    error.message.clone()
}

/// The invocation that an argument vector stands for under a schema, or
/// why it stands for none. A first argument that is a command word and
/// selects no command makes it the invocation of the unknown command,
/// whatever follows the word. Otherwise it is what the parser decides.
pub open spec fn parsed_as(schema: CommandDecl, argv: Seq<Seq<char>>) -> Result<
    InvocationView,
    Refusal,
> {
    match unknown_command(argv) {
        Some(word) => Ok(unknown_invocation(word)),
        None => match verdict(schema, argv) {
            Ok(matches) => Ok(invocation_in(matches)),
            Err(refusal) => Err(refusal),
        },
    }
}

/// Reads the argument vector of the process, its name first, against the
/// schema of the command line. The process goes on whatever the arguments
/// are: a refusal comes back as a value. A fault of the invocation is a
/// usage error, a request for help a display. A request for the version is
/// a display too, unless the parser could not write the version, which it
/// reports as an error. What the parser matches abides by the schema.
pub fn get_args<'a>(package: &Package<'a>, current_dir: &'a str, argv: &Vec<String>) -> (parsed:
    Result<Invocation, ParseError>)
    ensures
        match parsed_as(cli_command(*package, current_dir@), argv.deep_view()) {
            Ok(invocation) => parsed matches Ok(found) && found@ == invocation,
            Err(Refusal::Fault) => parsed matches Err(error) && error is Usage,
            Err(Refusal::Help) => parsed matches Err(error) && error is Display,
            Err(Refusal::Version) => parsed is Err,
        },
        unknown_command(argv.deep_view()) is None ==> (verdict(
            cli_command(*package, current_dir@),
            argv.deep_view(),
        ) matches Ok(matches) ==> abides(cli_command(*package, current_dir@), matches)),
{
    match unknown_command_word(argv) {
        Some(word) => {
            return Ok(Invocation::unknown(word));
        },
        None => {},
    }
    match get_matches_from_safe(cli(package, current_dir), argv) {
        Ok(matches) => Ok(read_invocation(&matches)),
        Err(error) => {
            let message = error_message(&error);
            if error_use_stderr(&error) {
                Err(ParseError::Usage { message })
            } else {
                Err(ParseError::Display { message })
            }
        },
    }
}

} // verus!
