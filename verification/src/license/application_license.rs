//! Which license an application is asking for.
use vstd::prelude::*;

verus! {

/// The kind of license an application requests (`ApplicationLicenses`).
///
/// A host asks for the least it needs. Requesting an editor license on a
/// station that only has a deployment one fails, so asking high "to be safe"
/// is how a station that would have worked refuses to start.
#[derive(Debug, Clone, Copy, PartialEq, Eq, Hash, Structural)]
#[non_exhaustive]
pub enum ApplicationLicense {
    /// Let the engine decide.
    Unspecified,
    /// An operator interface: runs sequences, does not edit them. The right
    /// request for a headless host.
    OperatorInterface,
    /// A custom sequence editor.
    CustomEditor,
    /// The full sequence editor.
    SequenceEditor,
}

impl ApplicationLicense {
    /// The number the engine exchanges for this value.
    pub open spec fn number(self) -> i32 {
        match self {
            ApplicationLicense::Unspecified => 0,
            ApplicationLicense::OperatorInterface => 100,
            ApplicationLicense::CustomEditor => 200,
            ApplicationLicense::SequenceEditor => 300,
        }
    }

    /// `decoded` is the value whose number is `raw`, or `raw` itself when no
    /// value has that number.
    pub open spec fn decodes(raw: i32, decoded: Result<Self, i32>) -> bool {
        match decoded {
            Ok(item) => item.number() == raw,
            Err(unknown) => unknown == raw && forall|item: ApplicationLicense| #[trigger] item.number() != raw,
        }
    }

    /// The engine's number for this request.
    pub fn bits(self) -> (bits: i32)
        ensures
            bits == self.number(),
    {
        match self {
            ApplicationLicense::Unspecified => 0,
            ApplicationLicense::OperatorInterface => 100,
            ApplicationLicense::CustomEditor => 200,
            ApplicationLicense::SequenceEditor => 300,
        }
    }

    /// Maps the engine's number onto a request, returning the number unchanged
    /// when this build does not name it.
    pub fn from_bits(raw: i32) -> (decoded: Result<ApplicationLicense, i32>)
        ensures
            ApplicationLicense::decodes(raw, decoded),
    {
        match raw {
            0 => Ok(ApplicationLicense::Unspecified),
            100 => Ok(ApplicationLicense::OperatorInterface),
            200 => Ok(ApplicationLicense::CustomEditor),
            300 => Ok(ApplicationLicense::SequenceEditor),
            unknown => Err(unknown),
        }
    }
}

/// Distinct values have distinct numbers.
pub proof fn lemma_numbers_are_distinct(a: ApplicationLicense, b: ApplicationLicense)
    requires
        a.number() == b.number(),
    ensures
        a == b,
{
}

/// Every value survives a trip through its number: decoding the number of
/// a value gives that value back.
pub proof fn lemma_number_round_trips(item: ApplicationLicense, decoded: Result<ApplicationLicense, i32>)
    requires
        ApplicationLicense::decodes(item.number(), decoded),
    ensures
        decoded == Ok::<ApplicationLicense, i32>(item),
{
    match decoded {
        Ok(found) => lemma_numbers_are_distinct(found, item),
        Err(_) => assert(item.number() != item.number()),
    }
}

} // verus!
