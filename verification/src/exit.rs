//! How a run ends: the exit code of the process and the lines that are
//! still to be printed.

use crate::parser::ParseError;
use vstd::prelude::*;

verus! {

/// What one path of the program came to.
#[derive(Clone, Debug, PartialEq, Eq)]
pub enum Outcome {
    /// The check ran and counted this many warnings.
    Checked { warnings: usize },
    /// The fix ran.
    Fixed,
    /// The names of the available checks, in their order.
    Listed { names: Vec<String> },
    /// The comparison ran and gave this many warnings.
    Compared { warnings: usize },
    /// The subcommand is none that the program knows.
    Unknown,
    /// The operation failed, with this message.
    Failed { message: String },
}

/// The end of a run.
#[derive(Clone, Debug, PartialEq, Eq)]
pub struct Exit {
    /// The exit code of the process.
    pub code: i32,
    /// The lines for the standard output, in their order.
    pub output: Vec<String>,
    /// The lines for the error stream, in their order.
    pub errors: Vec<String>,
}

/// The mathematical view of [`Exit`].
pub struct ExitView {
    pub code: int,
    pub output: Seq<Seq<char>>,
    pub errors: Seq<Seq<char>>,
}

impl View for Exit {
    type V = ExitView;

    open spec fn view(&self) -> ExitView {
        ExitView {
            code: self.code as int,
            output: self.output.deep_view(),
            errors: self.errors.deep_view(),
        }
    }
}

/// The exit code of each outcome: 0 where the run succeeded and found
/// nothing, 1 where it found warnings, did not know the command, or failed.
pub open spec fn exit_code_of(outcome: Outcome) -> int {
    match outcome {
        Outcome::Checked { warnings } => if warnings == 0 { 0 } else { 1 },
        Outcome::Fixed => 0,
        Outcome::Listed { .. } => 0,
        Outcome::Compared { warnings } => if warnings == 0 { 0 } else { 1 },
        Outcome::Unknown => 1,
        Outcome::Failed { .. } => 1,
    }
}

/// The end that each outcome leads to. The names of a listing go to the
/// standard output, one line each; the notice of an unknown command and
/// the message of a failure go to the error stream.
pub open spec fn exit_of(outcome: Outcome) -> ExitView {
    ExitView {
        code: exit_code_of(outcome),
        output: match outcome {
            Outcome::Listed { names } => names.deep_view(),
            _ => Seq::empty(),
        },
        errors: match outcome {
            Outcome::Unknown => seq!["unknown command"@],
            Outcome::Failed { message } => seq![message@],
            _ => Seq::empty(),
        },
    }
}

/// The end that a refusal of the parser leads to: a fault of the
/// invocation is reported on the error stream with code 1; the help or
/// version text that was asked for is shown with code 0.
pub open spec fn refusal_of(error: ParseError) -> ExitView {
    match error {
        ParseError::Usage { message } => ExitView {
            code: 1,
            output: Seq::empty(),
            errors: seq![message@],
        },
        ParseError::Display { message } => ExitView {
            code: 0,
            output: seq![message@],
            errors: Seq::empty(),
        },
    }
}

/// No line at all.
fn no_lines() -> (lines: Vec<String>)
    ensures
        lines.deep_view() == Seq::<Seq<char>>::empty(),
{
    let lines: Vec<String> = Vec::new();
    assert(lines.deep_view() =~= Seq::<Seq<char>>::empty());
    lines
}

/// The one line.
fn one_line(line: String) -> (lines: Vec<String>)
    ensures
        lines.deep_view() == seq![line@],
{
    let mut lines: Vec<String> = Vec::new();
    lines.push(line);
    assert(lines.deep_view() =~= seq![line@]);
    lines
}

/// The exit code that an outcome maps to.
pub fn exit_code(outcome: &Outcome) -> (code: i32)
    ensures
        code == exit_code_of(*outcome),
{
    match outcome {
        Outcome::Checked { warnings } => if *warnings == 0 { 0 } else { 1 },
        Outcome::Fixed => 0,
        Outcome::Listed { .. } => 0,
        Outcome::Compared { warnings } => if *warnings == 0 { 0 } else { 1 },
        Outcome::Unknown => 1,
        Outcome::Failed { .. } => 1,
    }
}

/// Ends the run after one path of the program.
pub fn conclude(outcome: Outcome) -> (exit: Exit)
    ensures
        exit@ == exit_of(outcome),
{
    let code = exit_code(&outcome);
    match outcome {
        Outcome::Listed { names } => Exit { code, output: names, errors: no_lines() },
        Outcome::Unknown => Exit {
            code,
            output: no_lines(),
            errors: one_line("unknown command".to_owned()),
        },
        Outcome::Failed { message } => Exit { code, output: no_lines(), errors: one_line(message) },
        _ => Exit { code, output: no_lines(), errors: no_lines() },
    }
}

/// Ends the run after a refusal of the parser.
pub fn refuse(error: ParseError) -> (exit: Exit)
    ensures
        exit@ == refusal_of(error),
{
    match error {
        ParseError::Usage { message } => Exit {
            code: 1,
            output: no_lines(),
            errors: one_line(message),
        },
        ParseError::Display { message } => Exit {
            code: 0,
            output: one_line(message),
            errors: no_lines(),
        },
    }
}

} // verus!
