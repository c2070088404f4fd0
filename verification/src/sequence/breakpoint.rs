//! Breakpoints, and the two scopes they can live in.
//!
//! A breakpoint belongs to a step, not to a run. Setting one without an
//! execution writes it into the step, so every execution of that sequence
//! stops there and the setting outlives the run that set it. Passing an
//! execution instead scopes the breakpoint to that one run, leaving the step on
//! disk untouched.
use vstd::prelude::*;

verus! {

/// Which run a breakpoint applies to.
///
/// The engine takes this as an optional argument on every breakpoint member.
/// Leaving it out edits the step itself; supplying an execution scopes the
/// change to that run.
#[derive(Debug)]
pub enum BreakpointScope<'execution, Execution> {
    /// Write the breakpoint into the step, where it outlives every run and is
    /// saved with the sequence file.
    Step,
    /// Apply it to one execution only, leaving the step on disk alone.
    Execution(&'execution Execution),
}

impl<'execution, Execution> BreakpointScope<'execution, Execution> {
    /// The optional execution argument the engine expects.
    ///
    /// `Step` becomes an absent argument rather than a null one, which is how
    /// the engine is told to edit the step itself.
    pub fn argument(self) -> (argument: Option<&'execution Execution>)
        ensures
            match self {
                BreakpointScope::Step => argument is None,
                BreakpointScope::Execution(execution) => argument == Some(execution),
            },
    {
        match self {
            BreakpointScope::Step => None,
            BreakpointScope::Execution(execution) => Some(execution),
        }
    }
}

} // verus!
