//! Array expression functions.
use vstd::prelude::*;

verus! {

/// An array function of the expression language.
///
/// Names only: what each one computes is the engine's to document.
#[derive(Debug, Clone, Copy, PartialEq, Eq, Hash, Structural)]
pub enum ArrayFunction {
    /// `Contains`.
    Contains,
    /// `FindIndex`.
    FindIndex,
    /// `FindOffset`.
    FindOffset,
    /// `GetArrayBounds`.
    GetArrayBounds,
    /// `GetNumElements`.
    GetNumElements,
    /// `IndexToOffset`.
    IndexToOffset,
    /// `InsertElements`.
    InsertElements,
    /// `OffsetToIndex`.
    OffsetToIndex,
    /// `RemoveElements`.
    RemoveElements,
    /// `SetArrayBounds`.
    SetArrayBounds,
    /// `SetElements`.
    SetElements,
    /// `SetNumElements`.
    SetNumElements,
    /// `Sort`.
    Sort,
}

impl ArrayFunction {
    /// Every function in this family.
    pub const ALL: [ArrayFunction; 13] = [
        ArrayFunction::Contains,
        ArrayFunction::FindIndex,
        ArrayFunction::FindOffset,
        ArrayFunction::GetArrayBounds,
        ArrayFunction::GetNumElements,
        ArrayFunction::IndexToOffset,
        ArrayFunction::InsertElements,
        ArrayFunction::OffsetToIndex,
        ArrayFunction::RemoveElements,
        ArrayFunction::SetArrayBounds,
        ArrayFunction::SetElements,
        ArrayFunction::SetNumElements,
        ArrayFunction::Sort,
    ];

    /// How the function is written in an expression.
    pub open spec fn spelling(self) -> Seq<char> {
        match self {
            ArrayFunction::Contains => "Contains"@,
            ArrayFunction::FindIndex => "FindIndex"@,
            ArrayFunction::FindOffset => "FindOffset"@,
            ArrayFunction::GetArrayBounds => "GetArrayBounds"@,
            ArrayFunction::GetNumElements => "GetNumElements"@,
            ArrayFunction::IndexToOffset => "IndexToOffset"@,
            ArrayFunction::InsertElements => "InsertElements"@,
            ArrayFunction::OffsetToIndex => "OffsetToIndex"@,
            ArrayFunction::RemoveElements => "RemoveElements"@,
            ArrayFunction::SetArrayBounds => "SetArrayBounds"@,
            ArrayFunction::SetElements => "SetElements"@,
            ArrayFunction::SetNumElements => "SetNumElements"@,
            ArrayFunction::Sort => "Sort"@,
        }
    }

    /// The name as written in an expression.
    pub fn name(self) -> (name: &'static str)
        ensures
            name@ == self.spelling(),
    {
        match self {
            ArrayFunction::Contains => "Contains",
            ArrayFunction::FindIndex => "FindIndex",
            ArrayFunction::FindOffset => "FindOffset",
            ArrayFunction::GetArrayBounds => "GetArrayBounds",
            ArrayFunction::GetNumElements => "GetNumElements",
            ArrayFunction::IndexToOffset => "IndexToOffset",
            ArrayFunction::InsertElements => "InsertElements",
            ArrayFunction::OffsetToIndex => "OffsetToIndex",
            ArrayFunction::RemoveElements => "RemoveElements",
            ArrayFunction::SetArrayBounds => "SetArrayBounds",
            ArrayFunction::SetElements => "SetElements",
            ArrayFunction::SetNumElements => "SetNumElements",
            ArrayFunction::Sort => "Sort",
        }
    }
}

/// The length of each spelling, and the characters that tell apart
/// spellings of equal length.
pub(crate) proof fn lemma_spelling_facts(item: ArrayFunction)
    ensures
        item.spelling().len() == match item {
            ArrayFunction::Contains => 8nat,
            ArrayFunction::FindIndex => 9nat,
            ArrayFunction::FindOffset => 10nat,
            ArrayFunction::GetArrayBounds => 14nat,
            ArrayFunction::GetNumElements => 14nat,
            ArrayFunction::IndexToOffset => 13nat,
            ArrayFunction::InsertElements => 14nat,
            ArrayFunction::OffsetToIndex => 13nat,
            ArrayFunction::RemoveElements => 14nat,
            ArrayFunction::SetArrayBounds => 14nat,
            ArrayFunction::SetElements => 11nat,
            ArrayFunction::SetNumElements => 14nat,
            ArrayFunction::Sort => 4nat,
        },
        item.spelling().len() > 0 ==> item.spelling()[0] == match item {
            ArrayFunction::Contains => 'C',
            ArrayFunction::FindIndex => 'F',
            ArrayFunction::FindOffset => 'F',
            ArrayFunction::GetArrayBounds => 'G',
            ArrayFunction::GetNumElements => 'G',
            ArrayFunction::IndexToOffset => 'I',
            ArrayFunction::InsertElements => 'I',
            ArrayFunction::OffsetToIndex => 'O',
            ArrayFunction::RemoveElements => 'R',
            ArrayFunction::SetArrayBounds => 'S',
            ArrayFunction::SetElements => 'S',
            ArrayFunction::SetNumElements => 'S',
            ArrayFunction::Sort => 'S',
        },
        item.spelling().len() > 3 ==> item.spelling()[3] == match item {
            ArrayFunction::Contains => 't',
            ArrayFunction::FindIndex => 'd',
            ArrayFunction::FindOffset => 'd',
            ArrayFunction::GetArrayBounds => 'A',
            ArrayFunction::GetNumElements => 'N',
            ArrayFunction::IndexToOffset => 'e',
            ArrayFunction::InsertElements => 'e',
            ArrayFunction::OffsetToIndex => 's',
            ArrayFunction::RemoveElements => 'o',
            ArrayFunction::SetArrayBounds => 'A',
            ArrayFunction::SetElements => 'E',
            ArrayFunction::SetNumElements => 'N',
            ArrayFunction::Sort => 't',
        },
{
    match item {
        ArrayFunction::Contains => reveal_strlit("Contains"),
        ArrayFunction::FindIndex => reveal_strlit("FindIndex"),
        ArrayFunction::FindOffset => reveal_strlit("FindOffset"),
        ArrayFunction::GetArrayBounds => reveal_strlit("GetArrayBounds"),
        ArrayFunction::GetNumElements => reveal_strlit("GetNumElements"),
        ArrayFunction::IndexToOffset => reveal_strlit("IndexToOffset"),
        ArrayFunction::InsertElements => reveal_strlit("InsertElements"),
        ArrayFunction::OffsetToIndex => reveal_strlit("OffsetToIndex"),
        ArrayFunction::RemoveElements => reveal_strlit("RemoveElements"),
        ArrayFunction::SetArrayBounds => reveal_strlit("SetArrayBounds"),
        ArrayFunction::SetElements => reveal_strlit("SetElements"),
        ArrayFunction::SetNumElements => reveal_strlit("SetNumElements"),
        ArrayFunction::Sort => reveal_strlit("Sort"),
    }
}

/// No two members of the family share a spelling.
pub proof fn lemma_spelling_distinct(a: ArrayFunction, b: ArrayFunction)
    requires
        a.spelling() == b.spelling(),
    ensures
        a == b,
{
    lemma_spelling_facts(a);
    lemma_spelling_facts(b);
}

} // verus!
