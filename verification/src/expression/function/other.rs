//! Other expression functions.
use vstd::prelude::*;

verus! {

/// An other function of the expression language.
///
/// Names only: what each one computes is the engine's to document.
#[derive(Debug, Clone, Copy, PartialEq, Eq, Hash, Structural)]
pub enum OtherFunction {
    /// `AllOf`.
    AllOf,
    /// `AnyOf`.
    AnyOf,
    /// `CheckLimits`.
    CheckLimits,
    /// `ConvertColor`.
    ConvertColor,
    /// `CurrentUserHasPrivilege`.
    CurrentUserHasPrivilege,
    /// `Enum`.
    Enum,
    /// `Evaluate`.
    Evaluate,
    /// `FindFile`.
    FindFile,
    /// `GetEngine`.
    GetEngine,
    /// `NoValidation`.
    NoValidation,
    /// `OutputMessage`.
    OutputMessage,
    /// `RGB`.
    Rgb,
    /// `TargetName`.
    TargetName,
}

impl OtherFunction {
    /// Every function in this family.
    pub const ALL: [OtherFunction; 13] = [
        OtherFunction::AllOf,
        OtherFunction::AnyOf,
        OtherFunction::CheckLimits,
        OtherFunction::ConvertColor,
        OtherFunction::CurrentUserHasPrivilege,
        OtherFunction::Enum,
        OtherFunction::Evaluate,
        OtherFunction::FindFile,
        OtherFunction::GetEngine,
        OtherFunction::NoValidation,
        OtherFunction::OutputMessage,
        OtherFunction::Rgb,
        OtherFunction::TargetName,
    ];

    /// How the function is written in an expression.
    pub open spec fn spelling(self) -> Seq<char> {
        match self {
            OtherFunction::AllOf => "AllOf"@,
            OtherFunction::AnyOf => "AnyOf"@,
            OtherFunction::CheckLimits => "CheckLimits"@,
            OtherFunction::ConvertColor => "ConvertColor"@,
            OtherFunction::CurrentUserHasPrivilege => "CurrentUserHasPrivilege"@,
            OtherFunction::Enum => "Enum"@,
            OtherFunction::Evaluate => "Evaluate"@,
            OtherFunction::FindFile => "FindFile"@,
            OtherFunction::GetEngine => "GetEngine"@,
            OtherFunction::NoValidation => "NoValidation"@,
            OtherFunction::OutputMessage => "OutputMessage"@,
            OtherFunction::Rgb => "RGB"@,
            OtherFunction::TargetName => "TargetName"@,
        }
    }

    /// The name as written in an expression.
    pub fn name(self) -> (name: &'static str)
        ensures
            name@ == self.spelling(),
    {
        match self {
            OtherFunction::AllOf => "AllOf",
            OtherFunction::AnyOf => "AnyOf",
            OtherFunction::CheckLimits => "CheckLimits",
            OtherFunction::ConvertColor => "ConvertColor",
            OtherFunction::CurrentUserHasPrivilege => "CurrentUserHasPrivilege",
            OtherFunction::Enum => "Enum",
            OtherFunction::Evaluate => "Evaluate",
            OtherFunction::FindFile => "FindFile",
            OtherFunction::GetEngine => "GetEngine",
            OtherFunction::NoValidation => "NoValidation",
            OtherFunction::OutputMessage => "OutputMessage",
            OtherFunction::Rgb => "RGB",
            OtherFunction::TargetName => "TargetName",
        }
    }
}

/// The length of each spelling, and the characters that tell apart
/// spellings of equal length.
pub(crate) proof fn lemma_spelling_facts(item: OtherFunction)
    ensures
        item.spelling().len() == match item {
            OtherFunction::AllOf => 5nat,
            OtherFunction::AnyOf => 5nat,
            OtherFunction::CheckLimits => 11nat,
            OtherFunction::ConvertColor => 12nat,
            OtherFunction::CurrentUserHasPrivilege => 23nat,
            OtherFunction::Enum => 4nat,
            OtherFunction::Evaluate => 8nat,
            OtherFunction::FindFile => 8nat,
            OtherFunction::GetEngine => 9nat,
            OtherFunction::NoValidation => 12nat,
            OtherFunction::OutputMessage => 13nat,
            OtherFunction::Rgb => 3nat,
            OtherFunction::TargetName => 10nat,
        },
        item.spelling().len() > 0 ==> item.spelling()[0] == match item {
            OtherFunction::AllOf => 'A',
            OtherFunction::AnyOf => 'A',
            OtherFunction::CheckLimits => 'C',
            OtherFunction::ConvertColor => 'C',
            OtherFunction::CurrentUserHasPrivilege => 'C',
            OtherFunction::Enum => 'E',
            OtherFunction::Evaluate => 'E',
            OtherFunction::FindFile => 'F',
            OtherFunction::GetEngine => 'G',
            OtherFunction::NoValidation => 'N',
            OtherFunction::OutputMessage => 'O',
            OtherFunction::Rgb => 'R',
            OtherFunction::TargetName => 'T',
        },
        item.spelling().len() > 1 ==> item.spelling()[1] == match item {
            OtherFunction::AllOf => 'l',
            OtherFunction::AnyOf => 'n',
            OtherFunction::CheckLimits => 'h',
            OtherFunction::ConvertColor => 'o',
            OtherFunction::CurrentUserHasPrivilege => 'u',
            OtherFunction::Enum => 'n',
            OtherFunction::Evaluate => 'v',
            OtherFunction::FindFile => 'i',
            OtherFunction::GetEngine => 'e',
            OtherFunction::NoValidation => 'o',
            OtherFunction::OutputMessage => 'u',
            OtherFunction::Rgb => 'G',
            OtherFunction::TargetName => 'a',
        },
{
    match item {
        OtherFunction::AllOf => reveal_strlit("AllOf"),
        OtherFunction::AnyOf => reveal_strlit("AnyOf"),
        OtherFunction::CheckLimits => reveal_strlit("CheckLimits"),
        OtherFunction::ConvertColor => reveal_strlit("ConvertColor"),
        OtherFunction::CurrentUserHasPrivilege => reveal_strlit("CurrentUserHasPrivilege"),
        OtherFunction::Enum => reveal_strlit("Enum"),
        OtherFunction::Evaluate => reveal_strlit("Evaluate"),
        OtherFunction::FindFile => reveal_strlit("FindFile"),
        OtherFunction::GetEngine => reveal_strlit("GetEngine"),
        OtherFunction::NoValidation => reveal_strlit("NoValidation"),
        OtherFunction::OutputMessage => reveal_strlit("OutputMessage"),
        OtherFunction::Rgb => reveal_strlit("RGB"),
        OtherFunction::TargetName => reveal_strlit("TargetName"),
    }
}

/// No two members of the family share a spelling.
pub proof fn lemma_spelling_distinct(a: OtherFunction, b: OtherFunction)
    requires
        a.spelling() == b.spelling(),
    ensures
        a == b,
{
    lemma_spelling_facts(a);
    lemma_spelling_facts(b);
}

} // verus!
