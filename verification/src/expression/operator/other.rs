//! Operators that shape an expression rather than compute a value: they
//! group, select, index and separate, so they carry no precedence here.
use vstd::prelude::*;

verus! {

/// A structural element of the expression language.
#[derive(Debug, Clone, Copy, PartialEq, Eq, Hash, Structural)]
pub enum OtherOperator {
    /// Parentheses, `()`, force evaluation order.
    Parentheses,
    /// Dot, `.`, separates a property from its field.
    FieldSeparator,
    /// Double dot, `..`, a range of indexes inside a subscript, selecting
    /// several elements and yielding a subarray.
    IndexRange,
    /// Brackets, `[]`, array subscript.
    ///
    /// The subscript is normally numeric. Arrays of steps or sequences also
    /// accept the element's name as a string.
    Subscript,
    /// Comma, `,`, separates or terminates expressions.
    Separator,
    /// Conditional, `?:`, picks one of two expressions from a boolean.
    Conditional,
    /// Braces, `{}`, an array constant.
    ArrayConstant,
    /// `//`, a comment running to the end of the line.
    LineComment,
    /// `'`, a comment running to the end of the line, in the Basic style.
    LineCommentBasic,
    /// `/* */`, a comment spanning any amount of text.
    BlockComment,
}

impl OtherOperator {
    /// Every structural element modeled here.
    pub const ALL: [OtherOperator; 10] = [
        OtherOperator::Parentheses,
        OtherOperator::FieldSeparator,
        OtherOperator::IndexRange,
        OtherOperator::Subscript,
        OtherOperator::Separator,
        OtherOperator::Conditional,
        OtherOperator::ArrayConstant,
        OtherOperator::LineComment,
        OtherOperator::LineCommentBasic,
        OtherOperator::BlockComment,
    ];

    /// How it is written; paired forms are given as the pair.
    pub open spec fn spelling(self) -> Seq<char> {
        match self {
            OtherOperator::Parentheses => "()"@,
            OtherOperator::FieldSeparator => "."@,
            OtherOperator::IndexRange => ".."@,
            OtherOperator::Subscript => "[]"@,
            OtherOperator::Separator => ","@,
            OtherOperator::Conditional => "?:"@,
            OtherOperator::ArrayConstant => "{}"@,
            OtherOperator::LineComment => "//"@,
            OtherOperator::LineCommentBasic => "'"@,
            OtherOperator::BlockComment => "/* */"@,
        }
    }

    /// How it is written. Paired forms are given as the pair.
    pub fn symbol(self) -> (symbol: &'static str)
        ensures
            symbol@ == self.spelling(),
    {
        match self {
            OtherOperator::Parentheses => "()",
            OtherOperator::FieldSeparator => ".",
            OtherOperator::IndexRange => "..",
            OtherOperator::Subscript => "[]",
            OtherOperator::Separator => ",",
            OtherOperator::Conditional => "?:",
            OtherOperator::ArrayConstant => "{}",
            OtherOperator::LineComment => "//",
            OtherOperator::LineCommentBasic => "'",
            OtherOperator::BlockComment => "/* */",
        }
    }

    /// Whether it introduces a comment rather than affecting evaluation.
    pub open spec fn comment(self) -> bool {
        self == OtherOperator::LineComment || self == OtherOperator::LineCommentBasic || self == OtherOperator::BlockComment
    }

    /// Whether it introduces a comment rather than affecting evaluation.
    pub fn is_comment(self) -> (comment: bool)
        ensures
            comment == self.comment(),
    {
        matches!(self, OtherOperator::LineComment | OtherOperator::LineCommentBasic | OtherOperator::BlockComment)
    }
}

/// The length of each spelling, and the characters that tell apart
/// spellings of equal length.
pub(crate) proof fn lemma_spelling_facts(item: OtherOperator)
    ensures
        item.spelling().len() == match item {
            OtherOperator::Parentheses => 2nat,
            OtherOperator::FieldSeparator => 1nat,
            OtherOperator::IndexRange => 2nat,
            OtherOperator::Subscript => 2nat,
            OtherOperator::Separator => 1nat,
            OtherOperator::Conditional => 2nat,
            OtherOperator::ArrayConstant => 2nat,
            OtherOperator::LineComment => 2nat,
            OtherOperator::LineCommentBasic => 1nat,
            OtherOperator::BlockComment => 5nat,
        },
        item.spelling().len() > 0 ==> item.spelling()[0] == match item {
            OtherOperator::Parentheses => '(',
            OtherOperator::FieldSeparator => '.',
            OtherOperator::IndexRange => '.',
            OtherOperator::Subscript => '[',
            OtherOperator::Separator => ',',
            OtherOperator::Conditional => '?',
            OtherOperator::ArrayConstant => '{',
            OtherOperator::LineComment => '/',
            OtherOperator::LineCommentBasic => '\'',
            OtherOperator::BlockComment => '/',
        },
{
    match item {
        OtherOperator::Parentheses => reveal_strlit("()"),
        OtherOperator::FieldSeparator => reveal_strlit("."),
        OtherOperator::IndexRange => reveal_strlit(".."),
        OtherOperator::Subscript => reveal_strlit("[]"),
        OtherOperator::Separator => reveal_strlit(","),
        OtherOperator::Conditional => reveal_strlit("?:"),
        OtherOperator::ArrayConstant => reveal_strlit("{}"),
        OtherOperator::LineComment => reveal_strlit("//"),
        OtherOperator::LineCommentBasic => reveal_strlit("'"),
        OtherOperator::BlockComment => reveal_strlit("/* */"),
    }
}

/// No two members of the family share a spelling.
pub proof fn lemma_spelling_distinct(a: OtherOperator, b: OtherOperator)
    requires
        a.spelling() == b.spelling(),
    ensures
        a == b,
{
    lemma_spelling_facts(a);
    lemma_spelling_facts(b);
}

} // verus!
