//! The invocation context: the resolved inputs and flags that one operation
//! is handed.

use crate::invocation::{ArgValues, ArgValuesView};
use vstd::prelude::*;

verus! {

/// What an operation works on and how.
#[derive(Clone, Debug, PartialEq, Eq)]
pub struct InvocationContext {
    /// The paths to work on, in the order given. Never empty.
    pub inputs: Vec<String>,
    /// The file names to leave out. Order and repetition mean nothing.
    pub excludes: Vec<String>,
    /// The checks to leave out. Order and repetition mean nothing.
    pub skips: Vec<String>,
    pub recursive: bool,
    pub quiet: bool,
    pub no_color: bool,
    /// Whether `fix` rewrites files without keeping a copy.
    pub no_backup: bool,
}

/// The mathematical view of [`InvocationContext`].
pub struct ContextView {
    pub inputs: Seq<Seq<char>>,
    pub excludes: Seq<Seq<char>>,
    pub skips: Seq<Seq<char>>,
    pub recursive: bool,
    pub quiet: bool,
    pub no_color: bool,
    pub no_backup: bool,
}

impl View for InvocationContext {
    type V = ContextView;

    open spec fn view(&self) -> ContextView {
        ContextView {
            inputs: self.inputs.deep_view(),
            excludes: self.excludes.deep_view(),
            skips: self.skips.deep_view(),
            recursive: self.recursive,
            quiet: self.quiet,
            no_color: self.no_color,
            no_backup: self.no_backup,
        }
    }
}

impl ContextView {
    /// A context names at least one input.
    pub open spec fn well_formed(self) -> bool {
        self.inputs.len() > 0
    }
}

/// The inputs of a context: those given, or the working directory alone
/// where none was given.
pub open spec fn resolved_inputs(given: Seq<Seq<char>>, current_dir: Seq<char>) -> Seq<Seq<char>> {
    if given.len() == 0 {
        seq![current_dir]
    } else {
        given
    }
}

/// The context of the check: everything that was matched but `no_backup`,
/// which belongs to `fix`.
pub open spec fn check_context_of(args: ArgValuesView, current_dir: Seq<char>) -> ContextView {
    ContextView {
        inputs: resolved_inputs(args.inputs, current_dir),
        excludes: args.excludes,
        skips: args.skips,
        recursive: args.recursive,
        quiet: args.quiet,
        no_color: args.no_color,
        no_backup: false,
    }
}

/// The context of `fix`: everything that was matched.
pub open spec fn fix_context_of(args: ArgValuesView, current_dir: Seq<char>) -> ContextView {
    ContextView { no_backup: args.no_backup, ..check_context_of(args, current_dir) }
}

/// The context of `compare`: the inputs, `no_color` and `quiet`. A
/// comparison scans for no rule, so the rest is left at its default.
pub open spec fn compare_context_of(args: ArgValuesView, current_dir: Seq<char>) -> ContextView {
    ContextView {
        inputs: resolved_inputs(args.inputs, current_dir),
        excludes: Seq::empty(),
        skips: Seq::empty(),
        recursive: false,
        quiet: args.quiet,
        no_color: args.no_color,
        no_backup: false,
    }
}

/// The inputs given, or the working directory where none was given.
fn resolve_inputs(given: Vec<String>, current_dir: &str) -> (inputs: Vec<String>)
    ensures
        inputs.deep_view() == resolved_inputs(given.deep_view(), current_dir@),
        inputs.len() > 0,
{
    if given.len() == 0 {
        let mut inputs: Vec<String> = Vec::new();
        inputs.push(current_dir.to_owned());
        assert(inputs.deep_view() =~= seq![current_dir@]);
        inputs
    } else {
        given
    }
}

impl InvocationContext {
    /// The context of the check.
    pub fn for_check(args: ArgValues, current_dir: &str) -> (context: InvocationContext)
        ensures
            context@ == check_context_of(args@, current_dir@),
            context@.well_formed(),
    {
        InvocationContext {
            inputs: resolve_inputs(args.inputs, current_dir),
            excludes: args.excludes,
            skips: args.skips,
            recursive: args.recursive,
            quiet: args.quiet,
            no_color: args.no_color,
            no_backup: false,
        }
    }

    /// The context of `fix`.
    pub fn for_fix(args: ArgValues, current_dir: &str) -> (context: InvocationContext)
        ensures
            context@ == fix_context_of(args@, current_dir@),
            context@.well_formed(),
    {
        InvocationContext {
            inputs: resolve_inputs(args.inputs, current_dir),
            excludes: args.excludes,
            skips: args.skips,
            recursive: args.recursive,
            quiet: args.quiet,
            no_color: args.no_color,
            no_backup: args.no_backup,
        }
    }

    /// The context of `compare`.
    pub fn for_compare(args: ArgValues, current_dir: &str) -> (context: InvocationContext)
        ensures
            context@ == compare_context_of(args@, current_dir@),
            context@.well_formed(),
    {
        let excludes: Vec<String> = Vec::new();
        let skips: Vec<String> = Vec::new();
        assert(excludes.deep_view() =~= Seq::<Seq<char>>::empty());
        assert(skips.deep_view() =~= Seq::<Seq<char>>::empty());
        InvocationContext {
            inputs: resolve_inputs(args.inputs, current_dir),
            excludes,
            skips,
            recursive: false,
            quiet: args.quiet,
            no_color: args.no_color,
            no_backup: false,
        }
    }
}

} // verus!
