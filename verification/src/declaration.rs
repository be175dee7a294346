//! Declarations of single command-line arguments.
//!
//! A [`Declaration`] is the mathematical record of one argument: its name,
//! its short and long form, and how it takes values. The executable value is
//! a `clap::Arg`; [`declared`] names the record that such a value stands for,
//! and each builder below says how one `clap` call changes it.

use clap::Arg;
use vstd::prelude::*;

verus! {

/// One declared argument of a command.
#[verifier::ext_equal]
pub struct Declaration {
    /// The identity under which matched values are looked up.
    pub name: Seq<char>,
    /// The one-letter form, written after a single hyphen.
    pub short: Option<char>,
    /// The long form, written after two hyphens.
    pub long: Option<Seq<char>>,
    /// The sentence shown for the argument in the help text.
    pub help: Option<Seq<char>>,
    /// The placeholders shown for the argument's values.
    pub value_names: Seq<Seq<char>>,
    /// Whether the argument is followed by a value.
    pub takes_value: bool,
    /// Whether the argument may be given, or take values, more than once.
    pub multiple: bool,
    /// Whether the parser rejects an invocation without it.
    pub required: bool,
    /// The position among the free-standing arguments, counted from 1.
    pub index: Option<u64>,
    /// The value taken when the invocation gives none.
    pub default_value: Option<Seq<char>>,
    /// The least number of values that the parser accepts.
    pub min_values: Option<u64>,
}

impl Declaration {
    /// The declaration that holds a name and nothing else.
    pub open spec fn named(name: Seq<char>) -> Declaration {
        Declaration {
            name,
            short: None,
            long: None,
            help: None,
            value_names: Seq::empty(),
            takes_value: false,
            multiple: false,
            required: false,
            index: None,
            default_value: None,
            min_values: None,
        }
    }

    /// A positional argument is matched by its place on the command line and
    /// not by a hyphenated form.
    pub open spec fn is_positional(self) -> bool {
        self.index is Some || (self.short is None && self.long is None)
    }

    /// Whether a command keeps the declaration as it stands. A positional
    /// argument is kept by its position, which is 1, and without a short or
    /// long form; where it has a minimum of values it repeats. A flag, which
    /// takes no value, is kept without placeholders, default and minimum.
    pub open spec fn kept_as_declared(self) -> bool {
        &&& self.is_positional() ==> {
            &&& self.index == Some(1u64)
            &&& self.short is None
            &&& self.long is None
            &&& self.min_values is Some ==> self.multiple
        }
        &&& !self.is_positional() && !self.takes_value ==> {
            &&& self.value_names.len() == 0
            &&& self.default_value is None
            &&& self.min_values is None
        }
    }

    /// Two declarations clash when one command cannot hold both: they share
    /// a name, a short form or a long form, or both are positional.
    pub open spec fn clashes_with(self, other: Declaration) -> bool {
        ||| self.name == other.name
        ||| (self.short is Some && self.short == other.short)
        ||| (self.long is Some && self.long == other.long)
        ||| (self.is_positional() && other.is_positional())
    }
}

/// Whether a text begins with a hyphen. The parser strips leading hyphens
/// from the forms it is given, so forms are declared without them.
pub open spec fn hyphenated(text: Seq<char>) -> bool {
    text.len() > 0 && text[0] == '-'
}

/// `clap::Arg`: one argument as the parser takes it. Nothing of its inside
/// is known here but through [`declared`].
#[verifier::external_type_specification]
#[verifier::external_body]
pub struct ExArg<'a, 'b>(Arg<'a, 'b>) where 'a: 'b;

/// The declaration that a `clap::Arg` holds.
pub uninterp spec fn declared(arg: Arg) -> Declaration;

/// `clap::Arg::with_name`: a fresh argument that holds the given name, with
/// every other part unset.
#[verifier::external_body]
pub(crate) fn arg_with_name<'a>(name: &'a str) -> (arg: Arg<'a, 'a>)
    ensures
        declared(arg) == Declaration::named(name@),
{
    Arg::with_name(name)
}

/// `clap::Arg::short`: sets the short form to the first character that is
/// not a hyphen. Here the form is one character, which is no hyphen.
#[verifier::external_body]
pub(crate) fn arg_short<'a>(arg: Arg<'a, 'a>, form: char) -> (out: Arg<'a, 'a>)
    requires
        form != '-',
    ensures
        declared(out) == (Declaration { short: Some(form), ..declared(arg) }),
{
    arg.short(form.to_string())
}

/// `clap::Arg::long`: sets the long form to the text without its leading
/// hyphens. Here the text has none.
#[verifier::external_body]
pub(crate) fn arg_long<'a>(arg: Arg<'a, 'a>, form: &'a str) -> (out: Arg<'a, 'a>)
    requires
        !hyphenated(form@),
    ensures
        declared(out) == (Declaration { long: Some(form@), ..declared(arg) }),
{
    arg.long(form)
}

/// `clap::Arg::help`: sets the help sentence.
#[verifier::external_body]
pub(crate) fn arg_help<'a>(arg: Arg<'a, 'a>, text: &'a str) -> (out: Arg<'a, 'a>)
    ensures
        declared(out) == (Declaration { help: Some(text@), ..declared(arg) }),
{
    arg.help(text)
}

/// `clap::Arg::value_name`: appends a placeholder for a value, and makes the
/// argument take a value.
#[verifier::external_body]
pub(crate) fn arg_value_name<'a>(arg: Arg<'a, 'a>, placeholder: &'a str) -> (out: Arg<'a, 'a>)
    ensures
        declared(out) == (Declaration {
            value_names: declared(arg).value_names.push(placeholder@),
            takes_value: true,
            ..declared(arg)
        }),
{
    arg.value_name(placeholder)
}

/// `clap::Arg::multiple`: sets whether the argument may repeat.
#[verifier::external_body]
pub(crate) fn arg_multiple<'a>(arg: Arg<'a, 'a>, repeats: bool) -> (out: Arg<'a, 'a>)
    ensures
        declared(out) == (Declaration { multiple: repeats, ..declared(arg) }),
{
    arg.multiple(repeats)
}

/// `clap::Arg::required`: sets whether the argument is required.
#[verifier::external_body]
pub(crate) fn arg_required<'a>(arg: Arg<'a, 'a>, needed: bool) -> (out: Arg<'a, 'a>)
    ensures
        declared(out) == (Declaration { required: needed, ..declared(arg) }),
{
    arg.required(needed)
}

/// `clap::Arg::index`: sets the position of a positional argument.
#[verifier::external_body]
pub(crate) fn arg_index<'a>(arg: Arg<'a, 'a>, position: u64) -> (out: Arg<'a, 'a>)
    ensures
        declared(out) == (Declaration { index: Some(position), ..declared(arg) }),
{
    arg.index(position)
}

/// `clap::Arg::default_value`: sets the value taken when none is given, and
/// makes the argument take a value.
#[verifier::external_body]
pub(crate) fn arg_default_value<'a>(arg: Arg<'a, 'a>, value: &'a str) -> (out: Arg<'a, 'a>)
    ensures
        declared(out) == (Declaration {
            default_value: Some(value@),
            takes_value: true,
            ..declared(arg)
        }),
{
    arg.default_value(value)
}

/// `clap::Arg::min_values`: sets the least number of values, and makes the
/// argument take a value.
#[verifier::external_body]
pub(crate) fn arg_min_values<'a>(arg: Arg<'a, 'a>, least: u64) -> (out: Arg<'a, 'a>)
    ensures
        declared(out) == (Declaration {
            min_values: Some(least),
            takes_value: true,
            ..declared(arg)
        }),
{
    arg.min_values(least)
}

} // verus!
