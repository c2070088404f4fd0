//! Property expression functions.
use vstd::prelude::*;

verus! {

/// A property function of the expression language.
///
/// Names only: what each one computes is the engine's to document.
#[derive(Debug, Clone, Copy, PartialEq, Eq, Hash, Structural)]
pub enum PropertyFunction {
    /// `CommentOf`.
    CommentOf,
    /// `FindStep`.
    FindStep,
    /// `NameOf`.
    NameOf,
    /// `PropertyExists`.
    PropertyExists,
    /// `TypeOf`.
    TypeOf,
}

impl PropertyFunction {
    /// Every function in this family.
    pub const ALL: [PropertyFunction; 5] = [
        PropertyFunction::CommentOf,
        PropertyFunction::FindStep,
        PropertyFunction::NameOf,
        PropertyFunction::PropertyExists,
        PropertyFunction::TypeOf,
    ];

    /// How the function is written in an expression.
    pub open spec fn spelling(self) -> Seq<char> {
        match self {
            PropertyFunction::CommentOf => "CommentOf"@,
            PropertyFunction::FindStep => "FindStep"@,
            PropertyFunction::NameOf => "NameOf"@,
            PropertyFunction::PropertyExists => "PropertyExists"@,
            PropertyFunction::TypeOf => "TypeOf"@,
        }
    }

    /// The name as written in an expression.
    pub fn name(self) -> (name: &'static str)
        ensures
            name@ == self.spelling(),
    {
        match self {
            PropertyFunction::CommentOf => "CommentOf",
            PropertyFunction::FindStep => "FindStep",
            PropertyFunction::NameOf => "NameOf",
            PropertyFunction::PropertyExists => "PropertyExists",
            PropertyFunction::TypeOf => "TypeOf",
        }
    }
}

/// The length of each spelling, and the characters that tell apart
/// spellings of equal length.
pub(crate) proof fn lemma_spelling_facts(item: PropertyFunction)
    ensures
        item.spelling().len() == match item {
            PropertyFunction::CommentOf => 9nat,
            PropertyFunction::FindStep => 8nat,
            PropertyFunction::NameOf => 6nat,
            PropertyFunction::PropertyExists => 14nat,
            PropertyFunction::TypeOf => 6nat,
        },
        item.spelling().len() > 0 ==> item.spelling()[0] == match item {
            PropertyFunction::CommentOf => 'C',
            PropertyFunction::FindStep => 'F',
            PropertyFunction::NameOf => 'N',
            PropertyFunction::PropertyExists => 'P',
            PropertyFunction::TypeOf => 'T',
        },
{
    match item {
        PropertyFunction::CommentOf => reveal_strlit("CommentOf"),
        PropertyFunction::FindStep => reveal_strlit("FindStep"),
        PropertyFunction::NameOf => reveal_strlit("NameOf"),
        PropertyFunction::PropertyExists => reveal_strlit("PropertyExists"),
        PropertyFunction::TypeOf => reveal_strlit("TypeOf"),
    }
}

/// No two members of the family share a spelling.
pub proof fn lemma_spelling_distinct(a: PropertyFunction, b: PropertyFunction)
    requires
        a.spelling() == b.spelling(),
    ensures
        a == b,
{
    lemma_spelling_facts(a);
    lemma_spelling_facts(b);
}

} // verus!
