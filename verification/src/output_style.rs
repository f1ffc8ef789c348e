//! How much of a run the user gets to see.

use vstd::prelude::*;

verus! {

/// What is shown to the user: git's own streams, and failures of git.
#[derive(Debug, PartialEq, Eq, Structural, Clone, Copy)]
pub enum OutputStyle {
    Default,
    GitOnly,
    NoGit,
    Quiet,
}

impl OutputStyle {
    /// Whether git's standard streams are forwarded to the user.
    pub open spec fn spec_print_progress(self) -> bool {
        self is Default || self is GitOnly
    }

    /// Whether a failure of git is reported to the user.
    pub open spec fn spec_report_errors(self) -> bool {
        self is Default || self is NoGit
    }

    /// Whether git's standard streams are forwarded to the user.
    #[verifier::when_used_as_spec(spec_print_progress)]
    pub fn print_progress(self) -> (shown: bool)
        ensures
            shown == self.spec_print_progress(),
    {
        match self {
            OutputStyle::Default | OutputStyle::GitOnly => true,
            OutputStyle::NoGit | OutputStyle::Quiet => false,
        }
    }

    /// Whether a failure of git is reported to the user.
    #[verifier::when_used_as_spec(spec_report_errors)]
    pub fn report_errors(self) -> (reported: bool)
        ensures
            reported == self.spec_report_errors(),
    {
        match self {
            OutputStyle::Default | OutputStyle::NoGit => true,
            OutputStyle::GitOnly | OutputStyle::Quiet => false,
        }
    }
}

impl Default for OutputStyle {
    fn default() -> (style: Self)
        ensures
            style == OutputStyle::Default,
    {
        OutputStyle::Default
    }
}

} // verus!
