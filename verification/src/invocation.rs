//! One invocation as plain values: what was matched at the root of the
//! command line and, where a subcommand was selected, its name and what was
//! matched under it. An invocation that asks for an unknown command bears
//! the word that it asked with as its marker, and nothing else.

use crate::matches::{is_present, matched, subcommand, values_of_lossy, Matches};
use clap::ArgMatches;
use vstd::prelude::*;

verus! {

/// The values and flags matched for one command.
#[derive(Clone, Debug, PartialEq, Eq)]
pub struct ArgValues {
    /// The paths given, in their order; none where no path was matched.
    pub inputs: Vec<String>,
    /// The file names given with `--exclude`.
    pub excludes: Vec<String>,
    /// The names of checks given with `--skip`.
    pub skips: Vec<String>,
    pub recursive: bool,
    pub quiet: bool,
    pub no_color: bool,
    pub no_backup: bool,
}

/// The mathematical view of [`ArgValues`].
pub struct ArgValuesView {
    pub inputs: Seq<Seq<char>>,
    pub excludes: Seq<Seq<char>>,
    pub skips: Seq<Seq<char>>,
    pub recursive: bool,
    pub quiet: bool,
    pub no_color: bool,
    pub no_backup: bool,
}

impl View for ArgValues {
    type V = ArgValuesView;

    open spec fn view(&self) -> ArgValuesView {
        ArgValuesView {
            inputs: self.inputs.deep_view(),
            excludes: self.excludes.deep_view(),
            skips: self.skips.deep_view(),
            recursive: self.recursive,
            quiet: self.quiet,
            no_color: self.no_color,
            no_backup: self.no_backup,
        }
    }
}

/// The selected subcommand.
#[derive(Clone, Debug, PartialEq, Eq)]
pub struct Selected {
    /// The marker: the name under which the parser reports the subcommand,
    /// or the command word that selects no command of the program.
    pub name: String,
    /// What was matched under the subcommand.
    pub args: ArgValues,
}

/// The mathematical view of [`Selected`].
pub struct SelectedView {
    pub name: Seq<char>,
    pub args: ArgValuesView,
}

impl View for Selected {
    type V = SelectedView;

    open spec fn view(&self) -> SelectedView {
        SelectedView { name: self.name@, args: self.args@ }
    }
}

/// One parsed invocation.
#[derive(Clone, Debug, PartialEq, Eq)]
pub struct Invocation {
    /// What was matched at the root.
    pub root: ArgValues,
    /// The subcommand, where one was selected.
    pub subcommand: Option<Selected>,
}

/// The mathematical view of [`Invocation`].
pub struct InvocationView {
    pub root: ArgValuesView,
    pub subcommand: Option<SelectedView>,
}

impl View for Invocation {
    type V = InvocationView;

    open spec fn view(&self) -> InvocationView {
        InvocationView {
            root: self.root@,
            subcommand: match self.subcommand {
                Some(selected) => Some(selected@),
                None => None,
            },
        }
    }
}

/// The values of a command for which nothing was matched.
pub open spec fn nothing_matched() -> ArgValuesView {
    ArgValuesView {
        inputs: Seq::empty(),
        excludes: Seq::empty(),
        skips: Seq::empty(),
        recursive: false,
        quiet: false,
        no_color: false,
        no_backup: false,
    }
}

/// The invocation that asks for an unknown command by its word: the word
/// is the marker, and nothing is matched, neither at the root nor under it.
pub open spec fn unknown_invocation(word: Seq<char>) -> InvocationView {
    InvocationView {
        root: nothing_matched(),
        subcommand: Some(SelectedView { name: word, args: nothing_matched() }),
    }
}

/// What the matches of one command hold under the names of the schema.
pub open spec fn values_in(matches: Matches) -> ArgValuesView {
    ArgValuesView {
        inputs: matches.values_of("input"@),
        excludes: matches.values_of("exclude"@),
        skips: matches.values_of("skip"@),
        recursive: matches.is_present("recursive"@),
        quiet: matches.is_present("quiet"@),
        no_color: matches.is_present("no-color"@),
        no_backup: matches.is_present("no-backup"@),
    }
}

/// The invocation that the matches of the root command stand for.
pub open spec fn invocation_in(matches: Matches) -> InvocationView {
    InvocationView {
        root: values_in(matches),
        subcommand: match matches.subcommand {
            Some((name, inner)) => Some(SelectedView { name, args: values_in(*inner) }),
            None => None,
        },
    }
}

impl ArgValues {
    /// The values of a command for which nothing was matched.
    pub fn none() -> (values: ArgValues)
        ensures
            values@ == nothing_matched(),
    {
        let inputs: Vec<String> = Vec::new();
        let excludes: Vec<String> = Vec::new();
        let skips: Vec<String> = Vec::new();
        assert(inputs.deep_view() =~= Seq::<Seq<char>>::empty());
        assert(excludes.deep_view() =~= Seq::<Seq<char>>::empty());
        assert(skips.deep_view() =~= Seq::<Seq<char>>::empty());
        ArgValues {
            inputs,
            excludes,
            skips,
            recursive: false,
            quiet: false,
            no_color: false,
            no_backup: false,
        }
    }
}

impl Invocation {
    /// The invocation that asks for an unknown command by its word.
    pub fn unknown(word: String) -> (invocation: Invocation)
        ensures
            invocation@ == unknown_invocation(word@),
    {
        Invocation {
            root: ArgValues::none(),
            subcommand: Some(Selected { name: word, args: ArgValues::none() }),
        }
    }
}

/// The values of one argument, or none where it was not matched.
fn values(matches: &ArgMatches, name: &str) -> (found: Vec<String>)
    ensures
        found.deep_view() == matched(*matches).values_of(name@),
{
    match values_of_lossy(matches, name) {
        Some(found) => found,
        None => {
            let found: Vec<String> = Vec::new();
            assert(found.deep_view() =~= Seq::<Seq<char>>::empty());
            found
        },
    }
}

/// Reads the values and flags of one command out of its matches.
pub fn read_values(matches: &ArgMatches) -> (values: ArgValues)
    ensures
        values@ == values_in(matched(*matches)),
{
    ArgValues {
        inputs: values(matches, "input"),
        excludes: values(matches, "exclude"),
        skips: values(matches, "skip"),
        recursive: is_present(matches, "recursive"),
        quiet: is_present(matches, "quiet"),
        no_color: is_present(matches, "no-color"),
        no_backup: is_present(matches, "no-backup"),
    }
}

/// Reads an invocation out of the matches of the root command.
pub fn read_invocation(matches: &ArgMatches) -> (invocation: Invocation)
    ensures
        invocation@ == invocation_in(matched(*matches)),
{
    let root = read_values(matches);
    let (name, inner) = subcommand(matches);
    let selected = match inner {
        Some(inner) => Some(Selected { name, args: read_values(inner) }),
        None => None,
    };
    Invocation { root, subcommand: selected }
}

} // verus!
