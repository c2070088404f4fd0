use rs_teststand::{
    ArithmeticOperator, Arity, AssignmentOperator, BitwiseOperator, ComparisonOperator,
    LogicalOperator, Operator, OperatorClass, OtherOperator,
};

#[test]
fn multiplication_binds_tighter_than_addition() {
    assert!(ArithmeticOperator::Multiply.precedence() < ArithmeticOperator::Add.precedence());
}

#[test]
fn the_two_remainder_spellings_agree() {
    let symbol = ArithmeticOperator::Modulo;
    let word = ArithmeticOperator::ModuloWord;
    assert_eq!(symbol.precedence(), word.precedence());
    assert_eq!(symbol.arity(), word.arity());
    assert_eq!(symbol.alternate_spelling(), Some(word));
    assert_eq!(word.alternate_spelling(), Some(symbol));
}

#[test]
fn increment_and_decrement_take_one_operand() {
    assert_eq!(ArithmeticOperator::Increment.arity(), Arity::Unary);
    assert_eq!(ArithmeticOperator::Decrement.arity(), Arity::Unary);
    assert_eq!(ArithmeticOperator::Add.arity(), Arity::Binary);
}

#[test]
fn no_operator_spells_exponentiation() {
    assert!(ArithmeticOperator::ALL.iter().all(|op| op.symbol() != "^"));
}

#[test]
fn precedence_is_reported_as_unknown_rather_than_invented() {
    for operator in AssignmentOperator::ALL {
        assert_eq!(operator.precedence(), None, "{operator:?}");
    }
}

#[test]
fn every_compound_form_ends_in_the_assignment_symbol() {
    for operator in AssignmentOperator::ALL {
        assert!(operator.symbol().ends_with('='), "{operator:?}");
    }
}

#[test]
fn every_assignment_has_a_distinct_symbol() {
    let mut symbols: Vec<&str> = AssignmentOperator::ALL
        .iter()
        .map(|op| op.symbol())
        .collect();
    symbols.sort_unstable();
    let count = symbols.len();
    symbols.dedup();
    assert_eq!(symbols.len(), count);
}

#[test]
fn and_binds_tighter_than_xor_which_binds_tighter_than_or() {
    assert!(BitwiseOperator::And.precedence() < BitwiseOperator::Xor.precedence());
    assert!(BitwiseOperator::Xor.precedence() < BitwiseOperator::Or.precedence());
}

#[test]
fn word_and_symbol_spellings_agree() {
    for operator in BitwiseOperator::ALL {
        let Some(other) = operator.alternate_spelling() else {
            continue;
        };
        assert_eq!(operator.precedence(), other.precedence(), "{operator:?}");
        assert_eq!(operator.arity(), other.arity(), "{operator:?}");
    }
}

#[test]
fn shifts_bind_looser_than_arithmetic_but_tighter_than_comparison() {
    assert!(ArithmeticOperator::Add.precedence() < BitwiseOperator::ShiftLeft.precedence());
    assert!(BitwiseOperator::ShiftLeft.precedence() < ComparisonOperator::Equal.precedence());
}

#[test]
fn all_comparisons_share_one_binding_level() {
    let levels: Vec<u8> = ComparisonOperator::ALL
        .iter()
        .map(|op| op.precedence())
        .collect();
    assert!(levels.windows(2).all(|pair| pair.first() == pair.last()));
}

#[test]
fn every_comparison_has_a_distinct_symbol() {
    let mut symbols: Vec<&str> = ComparisonOperator::ALL
        .iter()
        .map(|op| op.symbol())
        .collect();
    symbols.sort_unstable();
    let count = symbols.len();
    symbols.dedup();
    assert_eq!(symbols.len(), count);
}

#[test]
fn and_binds_tighter_than_or() {
    assert!(LogicalOperator::And.precedence() < LogicalOperator::Or.precedence());
}

#[test]
fn logical_operators_bind_looser_than_every_bitwise_one() {
    assert!(BitwiseOperator::Or.precedence() < LogicalOperator::And.precedence());
}

#[test]
fn the_symbols_are_doubled_to_distinguish_them_from_bitwise() {
    assert_eq!(LogicalOperator::And.symbol(), "&&");
    assert_eq!(LogicalOperator::Or.symbol(), "||");
}

#[test]
fn the_wrapper_reports_the_family_it_holds() {
    assert_eq!(
        Operator::Arithmetic(ArithmeticOperator::Add).class(),
        OperatorClass::Arithmetic
    );
    assert_eq!(
        Operator::Bitwise(BitwiseOperator::AndWord).class(),
        OperatorClass::Bitwise
    );
    assert_eq!(
        Operator::Logical(LogicalOperator::And).class(),
        OperatorClass::Logical
    );
}

#[test]
fn the_word_forms_are_bitwise_and_the_doubled_symbols_are_logical() {
    assert_eq!(
        Operator::Bitwise(BitwiseOperator::AndWord).class(),
        OperatorClass::Bitwise
    );
    assert_eq!(
        Operator::Logical(LogicalOperator::And).class(),
        OperatorClass::Logical
    );
    assert_eq!(BitwiseOperator::AndWord.symbol(), "AND");
    assert_eq!(LogicalOperator::And.symbol(), "&&");
}

#[test]
fn structural_elements_have_no_arity_or_precedence() {
    let subscript = Operator::Other(OtherOperator::Subscript);
    assert_eq!(subscript.arity(), None);
    assert_eq!(subscript.precedence(), None);
}

#[test]
fn the_measured_order_holds_across_families() {
    let tighter = |left: Operator, right: Operator| {
        left.precedence()
            .zip(right.precedence())
            .is_some_and(|(l, r)| l < r)
    };
    assert!(tighter(
        Operator::Arithmetic(ArithmeticOperator::Multiply),
        Operator::Arithmetic(ArithmeticOperator::Add)
    ));
    assert!(tighter(
        Operator::Arithmetic(ArithmeticOperator::Add),
        Operator::Bitwise(BitwiseOperator::ShiftLeft)
    ));
    assert!(tighter(
        Operator::Bitwise(BitwiseOperator::ShiftLeft),
        Operator::Comparison(ComparisonOperator::Equal)
    ));
    assert!(tighter(
        Operator::Comparison(ComparisonOperator::Equal),
        Operator::Bitwise(BitwiseOperator::And)
    ));
    assert!(tighter(
        Operator::Bitwise(BitwiseOperator::Or),
        Operator::Logical(LogicalOperator::And)
    ));
    assert!(tighter(
        Operator::Logical(LogicalOperator::And),
        Operator::Logical(LogicalOperator::Or)
    ));
}

#[test]
fn comments_are_identified_as_such() {
    assert!(OtherOperator::LineComment.is_comment());
    assert!(OtherOperator::BlockComment.is_comment());
    assert!(!OtherOperator::Subscript.is_comment());
}

#[test]
fn the_range_and_field_separators_are_distinguishable() {
    assert_eq!(OtherOperator::FieldSeparator.symbol(), ".");
    assert_eq!(OtherOperator::IndexRange.symbol(), "..");
    assert_ne!(
        OtherOperator::FieldSeparator.symbol(),
        OtherOperator::IndexRange.symbol()
    );
}

#[test]
fn every_element_has_a_distinct_spelling() {
    let mut symbols: Vec<&str> = OtherOperator::ALL.iter().map(|op| op.symbol()).collect();
    symbols.sort_unstable();
    let count = symbols.len();
    symbols.dedup();
    assert_eq!(symbols.len(), count);
}

#[test]
fn the_wrapper_forwards_every_member() {
    let operator = Operator::Assignment(AssignmentOperator::Xor);
    assert_eq!(operator.symbol(), "^=");
    assert_eq!(operator.arity(), Some(Arity::Binary));
    assert_eq!(operator.precedence(), None);
    assert_eq!(operator.class(), OperatorClass::Assignment);
    let not = Operator::Logical(LogicalOperator::Not);
    assert_eq!(not.symbol(), "!");
    assert_eq!(not.arity(), Some(Arity::Unary));
    assert_eq!(not.precedence(), Some(1));
    assert_eq!(Operator::Comparison(ComparisonOperator::GreaterOrEqual).precedence(), Some(5));
    assert_eq!(Operator::Other(OtherOperator::BlockComment).symbol(), "/* */");
    assert_eq!(Operator::Other(OtherOperator::Conditional).class(), OperatorClass::Other);
}

#[test]
fn every_measured_level_is_exact() {
    assert_eq!(ArithmeticOperator::Increment.precedence(), 1);
    assert_eq!(ArithmeticOperator::Divide.precedence(), 2);
    assert_eq!(ArithmeticOperator::Subtract.precedence(), 3);
    assert_eq!(BitwiseOperator::NotWord.precedence(), 1);
    assert_eq!(BitwiseOperator::ShiftRight.precedence(), 4);
    assert_eq!(BitwiseOperator::AndWord.precedence(), 6);
    assert_eq!(BitwiseOperator::XorWord.precedence(), 7);
    assert_eq!(BitwiseOperator::OrWord.precedence(), 8);
    assert_eq!(LogicalOperator::Or.precedence(), 10);
    assert_eq!(BitwiseOperator::ShiftLeft.alternate_spelling(), None);
    assert_eq!(ArithmeticOperator::Add.alternate_spelling(), None);
    assert_eq!(BitwiseOperator::Not.arity(), Arity::Unary);
    assert_eq!(ArithmeticOperator::ModuloWord.symbol(), "MOD");
}
