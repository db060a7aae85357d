//! Run options: what to print and whether renames are applied or only
//! simulated.

use vstd::prelude::*;

verus! {

/// Which flavour of JSON report is produced.
#[derive(Debug, Clone, PartialEq, Eq, Structural)]
pub enum JsonOutput {
    /// Every outcome is reported.
    JsonDefault,
    /// Only error outcomes are reported.
    JsonOnlyError,
}

/// How the outcomes of a run are reported.
#[derive(Debug, Clone, PartialEq, Eq, Structural)]
pub enum Output {
    /// Plain textual report of every change and error.
    Default,
    /// No report at all.
    Quiet,
    /// JSON report.
    JsonOutput {
        /// Which flavour of JSON report.
        json: JsonOutput,
        /// Whether the JSON is pretty-printed.
        pretty: bool,
    },
}

impl Output {
    /// True exactly for the plain textual report, which narrates as it goes.
    pub fn is_verbose(&self) -> (r: bool)
        ensures
            r <==> self is Default,
    {
        matches!(self, Output::Default)
    }
}

/// Options of one sanitizing run.
#[derive(Debug, Clone, PartialEq, Eq, Structural)]
pub struct NotoxArgs {
    /// When true, renames are computed and reported but never applied.
    pub dry_run: bool,
    /// How the outcomes are reported.
    pub output: Output,
}

impl NotoxArgs {
    /// True exactly when the options ask for the narrating textual report.
    pub fn is_vervose(&self) -> (r: bool)
        ensures
            r <==> self.output is Default,
    {
        self.output.is_verbose()
    }
}

} // verus!
