//! What the parser matched: for each argument that was given or defaulted
//! its values, and the subcommand that was selected, if any.
//!
//! The executable value is a `clap::ArgMatches`; [`matched`] names the
//! record that such a value stands for, and each reader below says which
//! part of it one `clap` call returns.

use clap::ArgMatches;
use vstd::prelude::*;

verus! {

/// The matches of one command.
#[verifier::ext_equal]
pub struct Matches {
    /// By the name of each argument that was matched, its values in the
    /// order in which they were given. A flag is matched without values.
    pub values: Map<Seq<char>, Seq<Seq<char>>>,
    /// The name of the selected subcommand and its own matches.
    pub subcommand: Option<(Seq<char>, Box<Matches>)>,
}

impl Matches {
    /// Whether anything was matched under the name: an argument, or the
    /// selected subcommand.
    pub open spec fn is_present(self, name: Seq<char>) -> bool {
        self.values.dom().contains(name) || (self.subcommand matches Some(selected)
            && selected.0 == name)
    }

    /// The values matched for the argument; none where it was not matched.
    pub open spec fn values_of(self, name: Seq<char>) -> Seq<Seq<char>> {
        if self.values.dom().contains(name) {
            self.values[name]
        } else {
            Seq::empty()
        }
    }
}

/// `clap::ArgMatches`: what the parser matched for one command. Nothing of
/// its inside is known here but through [`matched`].
#[verifier::external_type_specification]
#[verifier::external_body]
pub struct ExArgMatches<'a>(ArgMatches<'a>);

/// The matches that a `clap::ArgMatches` holds.
pub uninterp spec fn matched(matches: ArgMatches) -> Matches;

/// `clap::ArgMatches::is_present`: whether an argument of that name was
/// matched, or the subcommand of that name was selected.
#[verifier::external_body]
pub(crate) fn is_present(matches: &ArgMatches, name: &str) -> (present: bool)
    ensures
        present == matched(*matches).is_present(name@),
{
    matches.is_present(name)
}

/// `clap::ArgMatches::values_of_lossy`: the values of the argument of that
/// name, in the order in which they were given, or nothing where it was not
/// matched.
#[verifier::external_body]
pub(crate) fn values_of_lossy(matches: &ArgMatches, name: &str) -> (values: Option<Vec<String>>)
    ensures
        values is Some <==> matched(*matches).values.dom().contains(name@),
        values matches Some(v) ==> v.deep_view() == matched(*matches).values[name@],
{
    matches.values_of_lossy(name)
}

/// `clap::ArgMatches::subcommand`: the name of the selected subcommand and
/// its matches, or the empty name and nothing where none was selected.
#[verifier::external_body]
pub(crate) fn subcommand<'m, 'a>(matches: &'m ArgMatches<'a>) -> (selected: (
    String,
    Option<&'m ArgMatches<'a>>,
))
    ensures
        match matched(*matches).subcommand {
            Some((name, inner)) => selected.0@ == name && (selected.1 matches Some(sub) && matched(
                *sub,
            ) == *inner),
            None => selected.0@.len() == 0 && selected.1 is None,
        },
{
    let (name, inner) = matches.subcommand();
    (name.to_string(), inner)
}

} // verus!
