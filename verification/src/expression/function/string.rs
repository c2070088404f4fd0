//! String expression functions.
use vstd::prelude::*;

verus! {

/// A string function of the expression language.
///
/// Names only: what each one computes is the engine's to document.
#[derive(Debug, Clone, Copy, PartialEq, Eq, Hash, Structural)]
pub enum StringFunction {
    /// `CheckStrLimit`.
    CheckStrLimit,
    /// `Chr`.
    Chr,
    /// `DelocalizeExpression`.
    DelocalizeExpression,
    /// `Find`.
    Find,
    /// `FindPattern`.
    FindPattern,
    /// `Left`.
    Left,
    /// `Len`.
    Len,
    /// `LocalizedDecimalPoint`.
    LocalizedDecimalPoint,
    /// `LocalizeExpression`.
    LocalizeExpression,
    /// `MatchPattern`.
    MatchPattern,
    /// `Mid`.
    Mid,
    /// `Replace`.
    Replace,
    /// `ResStr`.
    ResStr,
    /// `Right`.
    Right,
    /// `SearchAndReplace`.
    SearchAndReplace,
    /// `SearchPatternAndReplace`.
    SearchPatternAndReplace,
    /// `Split`.
    Split,
    /// `Str`.
    Str,
    /// `StrComp`.
    StrComp,
    /// `ToLower`.
    ToLower,
    /// `ToUpper`.
    ToUpper,
    /// `Trim`.
    Trim,
    /// `TrimEnd`.
    TrimEnd,
    /// `TrimStart`.
    TrimStart,
}

impl StringFunction {
    /// Every function in this family.
    pub const ALL: [StringFunction; 24] = [
        StringFunction::CheckStrLimit,
        StringFunction::Chr,
        StringFunction::DelocalizeExpression,
        StringFunction::Find,
        StringFunction::FindPattern,
        StringFunction::Left,
        StringFunction::Len,
        StringFunction::LocalizedDecimalPoint,
        StringFunction::LocalizeExpression,
        StringFunction::MatchPattern,
        StringFunction::Mid,
        StringFunction::Replace,
        StringFunction::ResStr,
        StringFunction::Right,
        StringFunction::SearchAndReplace,
        StringFunction::SearchPatternAndReplace,
        StringFunction::Split,
        StringFunction::Str,
        StringFunction::StrComp,
        StringFunction::ToLower,
        StringFunction::ToUpper,
        StringFunction::Trim,
        StringFunction::TrimEnd,
        StringFunction::TrimStart,
    ];

    /// How the function is written in an expression.
    pub open spec fn spelling(self) -> Seq<char> {
        match self {
            StringFunction::CheckStrLimit => "CheckStrLimit"@,
            StringFunction::Chr => "Chr"@,
            StringFunction::DelocalizeExpression => "DelocalizeExpression"@,
            StringFunction::Find => "Find"@,
            StringFunction::FindPattern => "FindPattern"@,
            StringFunction::Left => "Left"@,
            StringFunction::Len => "Len"@,
            StringFunction::LocalizedDecimalPoint => "LocalizedDecimalPoint"@,
            StringFunction::LocalizeExpression => "LocalizeExpression"@,
            StringFunction::MatchPattern => "MatchPattern"@,
            StringFunction::Mid => "Mid"@,
            StringFunction::Replace => "Replace"@,
            StringFunction::ResStr => "ResStr"@,
            StringFunction::Right => "Right"@,
            StringFunction::SearchAndReplace => "SearchAndReplace"@,
            StringFunction::SearchPatternAndReplace => "SearchPatternAndReplace"@,
            StringFunction::Split => "Split"@,
            StringFunction::Str => "Str"@,
            StringFunction::StrComp => "StrComp"@,
            StringFunction::ToLower => "ToLower"@,
            StringFunction::ToUpper => "ToUpper"@,
            StringFunction::Trim => "Trim"@,
            StringFunction::TrimEnd => "TrimEnd"@,
            StringFunction::TrimStart => "TrimStart"@,
        }
    }

    /// The name as written in an expression.
    pub fn name(self) -> (name: &'static str)
        ensures
            name@ == self.spelling(),
    {
        match self {
            StringFunction::CheckStrLimit => "CheckStrLimit",
            StringFunction::Chr => "Chr",
            StringFunction::DelocalizeExpression => "DelocalizeExpression",
            StringFunction::Find => "Find",
            StringFunction::FindPattern => "FindPattern",
            StringFunction::Left => "Left",
            StringFunction::Len => "Len",
            StringFunction::LocalizedDecimalPoint => "LocalizedDecimalPoint",
            StringFunction::LocalizeExpression => "LocalizeExpression",
            StringFunction::MatchPattern => "MatchPattern",
            StringFunction::Mid => "Mid",
            StringFunction::Replace => "Replace",
            StringFunction::ResStr => "ResStr",
            StringFunction::Right => "Right",
            StringFunction::SearchAndReplace => "SearchAndReplace",
            StringFunction::SearchPatternAndReplace => "SearchPatternAndReplace",
            StringFunction::Split => "Split",
            StringFunction::Str => "Str",
            StringFunction::StrComp => "StrComp",
            StringFunction::ToLower => "ToLower",
            StringFunction::ToUpper => "ToUpper",
            StringFunction::Trim => "Trim",
            StringFunction::TrimEnd => "TrimEnd",
            StringFunction::TrimStart => "TrimStart",
        }
    }
}

/// The length of each spelling, and the characters that tell apart
/// spellings of equal length.
pub(crate) proof fn lemma_spelling_facts(item: StringFunction)
    ensures
        item.spelling().len() == match item {
            StringFunction::CheckStrLimit => 13nat,
            StringFunction::Chr => 3nat,
            StringFunction::DelocalizeExpression => 20nat,
            StringFunction::Find => 4nat,
            StringFunction::FindPattern => 11nat,
            StringFunction::Left => 4nat,
            StringFunction::Len => 3nat,
            StringFunction::LocalizedDecimalPoint => 21nat,
            StringFunction::LocalizeExpression => 18nat,
            StringFunction::MatchPattern => 12nat,
            StringFunction::Mid => 3nat,
            StringFunction::Replace => 7nat,
            StringFunction::ResStr => 6nat,
            StringFunction::Right => 5nat,
            StringFunction::SearchAndReplace => 16nat,
            StringFunction::SearchPatternAndReplace => 23nat,
            StringFunction::Split => 5nat,
            StringFunction::Str => 3nat,
            StringFunction::StrComp => 7nat,
            StringFunction::ToLower => 7nat,
            StringFunction::ToUpper => 7nat,
            StringFunction::Trim => 4nat,
            StringFunction::TrimEnd => 7nat,
            StringFunction::TrimStart => 9nat,
        },
        item.spelling().len() > 0 ==> item.spelling()[0] == match item {
            StringFunction::CheckStrLimit => 'C',
            StringFunction::Chr => 'C',
            StringFunction::DelocalizeExpression => 'D',
            StringFunction::Find => 'F',
            StringFunction::FindPattern => 'F',
            StringFunction::Left => 'L',
            StringFunction::Len => 'L',
            StringFunction::LocalizedDecimalPoint => 'L',
            StringFunction::LocalizeExpression => 'L',
            StringFunction::MatchPattern => 'M',
            StringFunction::Mid => 'M',
            StringFunction::Replace => 'R',
            StringFunction::ResStr => 'R',
            StringFunction::Right => 'R',
            StringFunction::SearchAndReplace => 'S',
            StringFunction::SearchPatternAndReplace => 'S',
            StringFunction::Split => 'S',
            StringFunction::Str => 'S',
            StringFunction::StrComp => 'S',
            StringFunction::ToLower => 'T',
            StringFunction::ToUpper => 'T',
            StringFunction::Trim => 'T',
            StringFunction::TrimEnd => 'T',
            StringFunction::TrimStart => 'T',
        },
        item.spelling().len() > 2 ==> item.spelling()[2] == match item {
            StringFunction::CheckStrLimit => 'e',
            StringFunction::Chr => 'r',
            StringFunction::DelocalizeExpression => 'l',
            StringFunction::Find => 'n',
            StringFunction::FindPattern => 'n',
            StringFunction::Left => 'f',
            StringFunction::Len => 'n',
            StringFunction::LocalizedDecimalPoint => 'c',
            StringFunction::LocalizeExpression => 'c',
            StringFunction::MatchPattern => 't',
            StringFunction::Mid => 'd',
            StringFunction::Replace => 'p',
            StringFunction::ResStr => 's',
            StringFunction::Right => 'g',
            StringFunction::SearchAndReplace => 'a',
            StringFunction::SearchPatternAndReplace => 'a',
            StringFunction::Split => 'l',
            StringFunction::Str => 'r',
            StringFunction::StrComp => 'r',
            StringFunction::ToLower => 'L',
            StringFunction::ToUpper => 'U',
            StringFunction::Trim => 'i',
            StringFunction::TrimEnd => 'i',
            StringFunction::TrimStart => 'i',
        },
{
    match item {
        StringFunction::CheckStrLimit => reveal_strlit("CheckStrLimit"),
        StringFunction::Chr => reveal_strlit("Chr"),
        StringFunction::DelocalizeExpression => reveal_strlit("DelocalizeExpression"),
        StringFunction::Find => reveal_strlit("Find"),
        StringFunction::FindPattern => reveal_strlit("FindPattern"),
        StringFunction::Left => reveal_strlit("Left"),
        StringFunction::Len => reveal_strlit("Len"),
        StringFunction::LocalizedDecimalPoint => reveal_strlit("LocalizedDecimalPoint"),
        StringFunction::LocalizeExpression => reveal_strlit("LocalizeExpression"),
        StringFunction::MatchPattern => reveal_strlit("MatchPattern"),
        StringFunction::Mid => reveal_strlit("Mid"),
        StringFunction::Replace => reveal_strlit("Replace"),
        StringFunction::ResStr => reveal_strlit("ResStr"),
        StringFunction::Right => reveal_strlit("Right"),
        StringFunction::SearchAndReplace => reveal_strlit("SearchAndReplace"),
        StringFunction::SearchPatternAndReplace => reveal_strlit("SearchPatternAndReplace"),
        StringFunction::Split => reveal_strlit("Split"),
        StringFunction::Str => reveal_strlit("Str"),
        StringFunction::StrComp => reveal_strlit("StrComp"),
        StringFunction::ToLower => reveal_strlit("ToLower"),
        StringFunction::ToUpper => reveal_strlit("ToUpper"),
        StringFunction::Trim => reveal_strlit("Trim"),
        StringFunction::TrimEnd => reveal_strlit("TrimEnd"),
        StringFunction::TrimStart => reveal_strlit("TrimStart"),
    }
}

/// No two members of the family share a spelling.
pub proof fn lemma_spelling_distinct(a: StringFunction, b: StringFunction)
    requires
        a.spelling() == b.spelling(),
    ensures
        a == b,
{
    lemma_spelling_facts(a);
    lemma_spelling_facts(b);
}

} // verus!
