//! Whether output is colourised.
//!
//! The decision is one flag for the whole process. An [`OutputPolicy`] is
//! the record of what this run has done to it: colour is switched off once
//! a `--no-color` flag has been applied, and nothing switches it on again.

use crate::invocation::ArgValues;
use vstd::prelude::*;

verus! {

/// The colour policy of one run.
#[derive(Clone, Copy, Debug, PartialEq, Eq)]
pub struct OutputPolicy {
    disabled: bool,
}

/// `colored::control::set_override`: from now on the `colored` crate
/// colourises every text, or none, whatever the terminal and the
/// environment say. It changes the state of the process and returns nothing.
#[verifier::external_body]
fn set_override(colorize: bool) {
    colored::control::set_override(colorize)
}

impl OutputPolicy {
    /// Whether this run has switched colour off.
    pub closed spec fn color_disabled(self) -> bool {
        self.disabled
    }

    /// The policy after a `--no-color` flag has been applied to it.
    pub closed spec fn applied(self, no_color: bool) -> OutputPolicy {
        OutputPolicy { disabled: self.disabled || no_color }
    }

    /// The policy at the start of a run: the default of the platform stands.
    pub fn new() -> (policy: OutputPolicy)
        ensures
            !policy.color_disabled(),
    {
        OutputPolicy { disabled: false }
    }

    /// Whether this run has switched colour off.
    pub fn is_color_disabled(&self) -> (disabled: bool)
        ensures
            disabled == self.color_disabled(),
    {
        self.disabled
    }

    /// A set flag switches colour off; otherwise the state is kept.
    pub broadcast proof fn lemma_applied(self, no_color: bool)
        ensures
            #[trigger] self.applied(no_color).color_disabled() == (self.color_disabled()
                || no_color),
    {
    }

    /// A flag that is not set leaves the policy as it is.
    pub proof fn law_absent_flag_keeps(self)
        ensures
            self.applied(false) == self,
    {
    }

    /// Applying the same flag twice is applying it once.
    pub proof fn law_idempotent(self, no_color: bool)
        ensures
            self.applied(no_color).applied(no_color) == self.applied(no_color),
    {
    }

    /// Once colour is off, no flag switches it on again.
    pub proof fn law_never_enabled_again(self, no_color: bool)
        requires
            self.color_disabled(),
        ensures
            self.applied(no_color).color_disabled(),
    {
    }

}

/// Applies the `--no-color` flag of one command: where it is set, colour is
/// off for the rest of the run; where it is not, nothing changes.
pub fn disable_color_output(policy: &mut OutputPolicy, args: &ArgValues)
    ensures
        *final(policy) == old(policy).applied(args.no_color),
{
    if args.no_color {
        set_override(false);
        policy.disabled = true;
    }
}

} // verus!
