//! The router: from a parsed invocation to the one operation that runs.

use crate::context::{
    check_context_of, compare_context_of, fix_context_of, ContextView, InvocationContext,
};
use crate::invocation::{Invocation, InvocationView};
use crate::policy::{disable_color_output, OutputPolicy};
use crate::word::same_text;
use vstd::prelude::*;

verus! {

/// The command that an invocation selects.
#[derive(Clone, Copy, Debug, PartialEq, Eq, Structural)]
pub enum Command {
    /// No subcommand: check the inputs.
    Check,
    Fix,
    List,
    Compare,
    /// A subcommand that the program does not know.
    Unknown,
}

/// The operation to run, with the context that it is handed.
#[derive(Clone, Debug, PartialEq, Eq)]
pub enum Route {
    Check(InvocationContext),
    Fix(InvocationContext),
    List,
    Compare(InvocationContext),
    Unknown,
}

/// The mathematical view of [`Route`].
pub enum RouteView {
    Check(ContextView),
    Fix(ContextView),
    List,
    Compare(ContextView),
    Unknown,
}

impl View for Route {
    type V = RouteView;

    open spec fn view(&self) -> RouteView {
        match self {
            Route::Check(context) => RouteView::Check(context@),
            Route::Fix(context) => RouteView::Fix(context@),
            Route::List => RouteView::List,
            Route::Compare(context) => RouteView::Compare(context@),
            Route::Unknown => RouteView::Unknown,
        }
    }
}

impl RouteView {
    /// The command that the route belongs to.
    pub open spec fn command(self) -> Command {
        match self {
            RouteView::Check(_) => Command::Check,
            RouteView::Fix(_) => Command::Fix,
            RouteView::List => Command::List,
            RouteView::Compare(_) => Command::Compare,
            RouteView::Unknown => Command::Unknown,
        }
    }

    /// Whether the route hands a context to an operation, and which.
    pub open spec fn context(self) -> Option<ContextView> {
        match self {
            RouteView::Check(context) => Some(context),
            RouteView::Fix(context) => Some(context),
            RouteView::Compare(context) => Some(context),
            _ => None,
        }
    }
}

impl InvocationView {
    /// The marker of the subcommand, where one was selected.
    pub open spec fn marker(self) -> Option<Seq<char>> {
        match self.subcommand {
            Some(selected) => Some(selected.name),
            None => None,
        }
    }
}

/// The command that a marker selects: the check without a marker, the
/// subcommand of that name with one, and the unknown command for any other
/// marker.
pub open spec fn selection(marker: Option<Seq<char>>) -> Command {
    match marker {
        None => Command::Check,
        Some(name) => if name == "fix"@ {
            Command::Fix
        } else if name == "list"@ {
            Command::List
        } else if name == "compare"@ {
            Command::Compare
        } else {
            Command::Unknown
        },
    }
}

/// The route of an invocation: the selected command, with the context
/// built from what was matched for that command.
pub open spec fn route_of(invocation: InvocationView, current_dir: Seq<char>) -> RouteView {
    match invocation.subcommand {
        None => RouteView::Check(check_context_of(invocation.root, current_dir)),
        Some(selected) => match selection(Some(selected.name)) {
            Command::Fix => RouteView::Fix(fix_context_of(selected.args, current_dir)),
            Command::List => RouteView::List,
            Command::Compare => RouteView::Compare(compare_context_of(selected.args, current_dir)),
            _ => RouteView::Unknown,
        },
    }
}

/// The colour policy after routing: the flag of the root is applied on
/// every path, and then, on the path of `compare`, the flag of `compare`.
pub open spec fn policy_of(before: OutputPolicy, invocation: InvocationView) -> OutputPolicy {
    let at_root = before.applied(invocation.root.no_color);
    match invocation.subcommand {
        Some(selected) if selection(Some(selected.name)) == Command::Compare => at_root.applied(
            selected.args.no_color,
        ),
        _ => at_root,
    }
}

/// The command that the invocation selects.
pub fn select_command(invocation: &Invocation) -> (command: Command)
    ensures
        command == selection(invocation@.marker()),
{
    match &invocation.subcommand {
        None => Command::Check,
        Some(selected) => {
            if same_text(selected.name.as_str(), "fix") {
                Command::Fix
            } else if same_text(selected.name.as_str(), "list") {
                Command::List
            } else if same_text(selected.name.as_str(), "compare") {
                Command::Compare
            } else {
                Command::Unknown
            }
        },
    }
}

impl Route {
    /// The command that the route belongs to.
    pub fn command(&self) -> (command: Command)
        ensures
            command == self@.command(),
    {
        match self {
            Route::Check(_) => Command::Check,
            Route::Fix(_) => Command::Fix,
            Route::List => Command::List,
            Route::Compare(_) => Command::Compare,
            Route::Unknown => Command::Unknown,
        }
    }
}

/// Routes the invocation to its operation. The colour policy is applied
/// before anything runs: with the flag of the root, and on the path of
/// `compare` once more with the flag of `compare`.
pub fn route(invocation: Invocation, current_dir: &str, policy: &mut OutputPolicy) -> (route: Route)
    ensures
        route@ == route_of(invocation@, current_dir@),
        *final(policy) == policy_of(*old(policy), invocation@),
{
    let command = select_command(&invocation);
    disable_color_output(policy, &invocation.root);
    match invocation.subcommand {
        None => Route::Check(InvocationContext::for_check(invocation.root, current_dir)),
        Some(selected) => match command {
            Command::Fix => Route::Fix(InvocationContext::for_fix(selected.args, current_dir)),
            Command::List => Route::List,
            Command::Compare => {
                disable_color_output(policy, &selected.args);
                Route::Compare(InvocationContext::for_compare(selected.args, current_dir))
            },
            _ => Route::Unknown,
        },
    }
}

} // verus!
