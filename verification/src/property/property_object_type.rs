//! How a property's value is typed and stored.
use vstd::prelude::*;

verus! {

/// How a numeric property is stored (`PropertyRepresentation_*`).
///
/// The engine matches representations **strictly**: a format code that implies
/// an integer, such as `%x` or `%i`, is rejected with `TS_Err_UnexpectedType`
/// on a value stored as [`Float64`](Self::Float64). Historically every number
/// was a double; the 64-bit integer representations exist because a double
/// cannot hold the full range of a 64-bit integer exactly.
#[derive(Debug, Clone, Copy, PartialEq, Eq, Hash, Structural)]
pub enum PropertyRepresentation {
    /// The default for anything non-numeric (`PropertyRepresentation_None`).
    NoRepresentation,
    /// Double-precision float (`PropertyRepresentation_Float64`).
    Float64,
    /// Signed 64-bit integer (`PropertyRepresentation_Int64`).
    Int64,
    /// Unsigned 64-bit integer (`PropertyRepresentation_UInt64`).
    UInt64,
}

impl PropertyRepresentation {
    /// The number the engine exchanges for this value.
    pub open spec fn number(self) -> i32 {
        match self {
            PropertyRepresentation::NoRepresentation => 0,
            PropertyRepresentation::Float64 => 1,
            PropertyRepresentation::Int64 => 2,
            PropertyRepresentation::UInt64 => 3,
        }
    }

    /// `decoded` is the value whose number is `raw`, or `raw` itself when no
    /// value has that number.
    pub open spec fn decodes(raw: i32, decoded: Result<Self, i32>) -> bool {
        match decoded {
            Ok(item) => item.number() == raw,
            Err(unknown) => unknown == raw && forall|item: PropertyRepresentation| #[trigger] item.number() != raw,
        }
    }

    /// The number the engine exchanges for this value.
    pub fn bits(self) -> (bits: i32)
        ensures
            bits == self.number(),
    {
        match self {
            PropertyRepresentation::NoRepresentation => 0,
            PropertyRepresentation::Float64 => 1,
            PropertyRepresentation::Int64 => 2,
            PropertyRepresentation::UInt64 => 3,
        }
    }

    /// Reads the engine's number for a representation
    /// (`PropertyObjectType.Representation`), returning it unchanged when this
    /// build does not name it.
    pub fn from_bits(raw: i32) -> (decoded: Result<PropertyRepresentation, i32>)
        ensures
            PropertyRepresentation::decodes(raw, decoded),
    {
        match raw {
            0 => Ok(PropertyRepresentation::NoRepresentation),
            1 => Ok(PropertyRepresentation::Float64),
            2 => Ok(PropertyRepresentation::Int64),
            3 => Ok(PropertyRepresentation::UInt64),
            unknown => Err(unknown),
        }
    }
}

/// Distinct values have distinct numbers.
pub proof fn lemma_numbers_are_distinct(a: PropertyRepresentation, b: PropertyRepresentation)
    requires
        a.number() == b.number(),
    ensures
        a == b,
{
}

/// Every value survives a trip through its number: decoding the number of
/// a value gives that value back.
pub proof fn lemma_number_round_trips(item: PropertyRepresentation, decoded: Result<PropertyRepresentation, i32>)
    requires
        PropertyRepresentation::decodes(item.number(), decoded),
    ensures
        decoded == Ok::<PropertyRepresentation, i32>(item),
{
    match decoded {
        Ok(found) => lemma_numbers_are_distinct(found, item),
        Err(_) => assert(item.number() != item.number()),
    }
}

} // verus!
