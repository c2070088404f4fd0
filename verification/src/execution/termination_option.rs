//! How a thread answers a request to terminate its execution.
use vstd::prelude::*;

verus! {

/// What a thread does when its execution is asked to terminate
/// (`ThreadTerminationOptions`).
///
/// An execution cannot finish terminating while any of its threads refuses to
/// stop, so this decides whether `Execution::terminate` completes promptly or
/// waits.
#[derive(Debug, Clone, Copy, PartialEq, Eq, Hash, Structural)]
#[non_exhaustive]
pub enum ThreadTerminationOption {
    /// Stop with the execution. The default, and what an unattended host wants
    /// almost everywhere.
    Normal,
    /// Refuse to stop unless the execution is told to override refusals.
    ///
    /// When every remaining thread chooses this, the engine posts
    /// `UIMsg_NonTerminatableThreadsArePreventingTermination` and waits. On a
    /// station with somebody watching, that is a question. On a headless host
    /// it is a termination that never finishes unless the host handles that
    /// message and overrides, so treat this as something to notice rather than
    /// something to set casually.
    Prompt,
    /// Never stop with the execution; the thread runs to its own end first.
    ///
    /// For work that must not be cut in half, such as leaving hardware in a
    /// safe state. The execution cannot end until the thread does, so anything
    /// choosing this needs a bounded amount of work left to do.
    Never,
}

impl ThreadTerminationOption {
    /// The number the engine exchanges for this value.
    pub open spec fn number(self) -> i32 {
        match self {
            ThreadTerminationOption::Normal => 0,
            ThreadTerminationOption::Prompt => 1,
            ThreadTerminationOption::Never => 2,
        }
    }

    /// `decoded` is the value whose number is `raw`, or `raw` itself when no
    /// value has that number.
    pub open spec fn decodes(raw: i32, decoded: Result<Self, i32>) -> bool {
        match decoded {
            Ok(item) => item.number() == raw,
            Err(unknown) => unknown == raw && forall|item: ThreadTerminationOption| #[trigger] item.number() != raw,
        }
    }

    /// The engine's number for this option.
    pub fn bits(self) -> (bits: i32)
        ensures
            bits == self.number(),
    {
        match self {
            ThreadTerminationOption::Normal => 0,
            ThreadTerminationOption::Prompt => 1,
            ThreadTerminationOption::Never => 2,
        }
    }

    /// Maps the engine's number onto an option, returning the number unchanged
    /// when this build does not name it.
    pub fn from_bits(raw: i32) -> (decoded: Result<ThreadTerminationOption, i32>)
        ensures
            ThreadTerminationOption::decodes(raw, decoded),
    {
        match raw {
            0 => Ok(ThreadTerminationOption::Normal),
            1 => Ok(ThreadTerminationOption::Prompt),
            2 => Ok(ThreadTerminationOption::Never),
            unknown => Err(unknown),
        }
    }

    /// Whether a thread with this option stops when its execution terminates:
    /// only `Normal` does.
    pub open spec fn stops(self) -> bool {
        self == ThreadTerminationOption::Normal
    }

    /// Whether a thread with this option stops when its execution terminates.
    ///
    /// False for both `Prompt` and `Never`, so a host can tell in one call
    /// whether a thread is going to hold up a termination.
    pub fn stops_with_execution(self) -> (stops: bool)
        ensures
            stops == self.stops(),
    {
        matches!(self, ThreadTerminationOption::Normal)
    }
}

/// Distinct values have distinct numbers.
pub proof fn lemma_numbers_are_distinct(a: ThreadTerminationOption, b: ThreadTerminationOption)
    requires
        a.number() == b.number(),
    ensures
        a == b,
{
}

/// Every value survives a trip through its number: decoding the number of
/// a value gives that value back.
pub proof fn lemma_number_round_trips(item: ThreadTerminationOption, decoded: Result<ThreadTerminationOption, i32>)
    requires
        ThreadTerminationOption::decodes(item.number(), decoded),
    ensures
        decoded == Ok::<ThreadTerminationOption, i32>(item),
{
    match decoded {
        Ok(found) => lemma_numbers_are_distinct(found, item),
        Err(_) => assert(item.number() != item.number()),
    }
}

} // verus!
