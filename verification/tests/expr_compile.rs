use ir_core::common::{
    Const, DecimalF64, IrError, NameOrId, ParseError, ParseErrorKind, Property, Variable,
};
use ir_core::expr::{ExprOpr, ExprToken};
use ir_core::parser::compile;

fn var(tag: &str) -> ExprToken {
    ExprToken::Var(Variable { tag: NameOrId::Name(tag.as_bytes().to_vec()), property: None })
}

fn i32c(v: i32) -> ExprToken {
    ExprToken::Lit(Const::I32(v))
}

fn op(o: ExprOpr) -> ExprToken {
    ExprToken::Opr(o)
}

#[test]
fn compile_comparison_conjunction() {
    let r = compile(b"@age > 20 && @name == \"John\"").unwrap();
    let expected = vec![
        var("age"),
        i32c(20),
        op(ExprOpr::Gt),
        var("name"),
        ExprToken::Lit(Const::Str(b"John".to_vec())),
        op(ExprOpr::Eq),
        op(ExprOpr::And),
    ];
    assert_eq!(r.tokens, expected);
}

#[test]
fn compile_parenthesized_product() {
    let r = compile(b"(1 + 2) * 3").unwrap();
    let expected = vec![i32c(1), i32c(2), op(ExprOpr::Add), i32c(3), op(ExprOpr::Mul)];
    assert_eq!(r.tokens, expected);
}

#[test]
fn compile_unbalanced_paren_fails() {
    let r = compile(b"(1 + 2");
    assert_eq!(
        r.unwrap_err(),
        IrError::Parse(ParseError { pos: 6, kind: ParseErrorKind::UnbalancedParen })
    );
}

#[test]
fn compile_stray_close_paren_fails() {
    let r = compile(b"()");
    assert_eq!(
        r.unwrap_err(),
        IrError::Parse(ParseError { pos: 1, kind: ParseErrorKind::UnbalancedParen })
    );
}

#[test]
fn product_binds_tighter_than_sum() {
    let r = compile(b"1 + 2 * 3").unwrap();
    let expected = vec![i32c(1), i32c(2), i32c(3), op(ExprOpr::Mul), op(ExprOpr::Add)];
    assert_eq!(r.tokens, expected);
}

#[test]
fn subtraction_is_left_associative() {
    let r = compile(b"1 - 2 - 3").unwrap();
    let expected = vec![i32c(1), i32c(2), op(ExprOpr::Sub), i32c(3), op(ExprOpr::Sub)];
    assert_eq!(r.tokens, expected);
}

#[test]
fn negation_binds_tightest() {
    let r = compile(b"!true || false").unwrap();
    let expected = vec![
        ExprToken::Lit(Const::Boolean(true)),
        op(ExprOpr::Not),
        ExprToken::Lit(Const::Boolean(false)),
        op(ExprOpr::Or),
    ];
    assert_eq!(r.tokens, expected);
}

#[test]
fn comparison_below_logical_above_arithmetic() {
    let r = compile(b"@a.id + 1 <= 2 || @b.label != 3").unwrap();
    let expected = vec![
        ExprToken::Var(Variable {
            tag: NameOrId::Name(b"a".to_vec()),
            property: Some(Property::Id),
        }),
        i32c(1),
        op(ExprOpr::Add),
        i32c(2),
        op(ExprOpr::Le),
        ExprToken::Var(Variable {
            tag: NameOrId::Name(b"b".to_vec()),
            property: Some(Property::Label),
        }),
        i32c(3),
        op(ExprOpr::Ne),
        op(ExprOpr::Or),
    ];
    assert_eq!(r.tokens, expected);
}

#[test]
fn variable_property_forms() {
    let r = compile(b"@p.name < @1.2").unwrap();
    let expected = vec![
        ExprToken::Var(Variable {
            tag: NameOrId::Name(b"p".to_vec()),
            property: Some(Property::Key(NameOrId::Name(b"name".to_vec()))),
        }),
        ExprToken::Var(Variable {
            tag: NameOrId::Id(1),
            property: Some(Property::Key(NameOrId::Id(2))),
        }),
        op(ExprOpr::Lt),
    ];
    assert_eq!(r.tokens, expected);
}

#[test]
fn float_literal_is_exact_decimal() {
    let r = compile(b"20.5 / 0.25").unwrap();
    let expected = vec![
        ExprToken::Lit(Const::F64(DecimalF64 { mantissa: 205, exp10: -1 })),
        ExprToken::Lit(Const::F64(DecimalF64 { mantissa: 25, exp10: -2 })),
        op(ExprOpr::Div),
    ];
    assert_eq!(r.tokens, expected);
}

#[test]
fn integer_width_selection() {
    let r = compile(b"2147483647 + 2147483648").unwrap();
    let expected = vec![
        i32c(2147483647),
        ExprToken::Lit(Const::I64(2147483648)),
        op(ExprOpr::Add),
    ];
    assert_eq!(r.tokens, expected);

    let r = compile(b"9223372036854775807").unwrap();
    assert_eq!(r.tokens, vec![ExprToken::Lit(Const::I64(9223372036854775807))]);
}

#[test]
fn integer_overflow_fails() {
    let r = compile(b"9223372036854775808");
    assert_eq!(
        r.unwrap_err(),
        IrError::Parse(ParseError { pos: 0, kind: ParseErrorKind::MalformedToken })
    );
}

#[test]
fn empty_input_fails() {
    assert_eq!(
        compile(b"").unwrap_err(),
        IrError::Parse(ParseError { pos: 0, kind: ParseErrorKind::EmptyInput })
    );
    assert_eq!(
        compile(b"   ").unwrap_err(),
        IrError::Parse(ParseError { pos: 0, kind: ParseErrorKind::EmptyInput })
    );
}

#[test]
fn embedded_nul_is_invalid_input() {
    assert_eq!(compile(b"1 + \x002").unwrap_err(), IrError::InvalidInputString);
}

#[test]
fn unknown_byte_fails() {
    assert_eq!(
        compile(b"1 + #").unwrap_err(),
        IrError::Parse(ParseError { pos: 4, kind: ParseErrorKind::UnknownToken })
    );
}

#[test]
fn bare_word_fails() {
    assert_eq!(
        compile(b"foo").unwrap_err(),
        IrError::Parse(ParseError { pos: 0, kind: ParseErrorKind::UnknownToken })
    );
}

#[test]
fn lone_ampersand_fails() {
    assert_eq!(
        compile(b"1 & 2").unwrap_err(),
        IrError::Parse(ParseError { pos: 2, kind: ParseErrorKind::MalformedToken })
    );
}

#[test]
fn unterminated_string_fails() {
    assert_eq!(
        compile(b"@s == \"abc").unwrap_err(),
        IrError::Parse(ParseError { pos: 6, kind: ParseErrorKind::MalformedToken })
    );
}

#[test]
fn trailing_input_fails() {
    assert_eq!(
        compile(b"1 2").unwrap_err(),
        IrError::Parse(ParseError { pos: 2, kind: ParseErrorKind::TrailingInput })
    );
}

#[test]
fn operator_where_operand_expected_fails() {
    assert_eq!(
        compile(b"* 2").unwrap_err(),
        IrError::Parse(ParseError { pos: 0, kind: ParseErrorKind::UnexpectedToken })
    );
}

#[test]
fn input_ends_where_operand_expected() {
    assert_eq!(
        compile(b"1 +").unwrap_err(),
        IrError::Parse(ParseError { pos: 3, kind: ParseErrorKind::UnexpectedEnd })
    );
}

#[test]
fn at_sign_without_tag_fails() {
    assert_eq!(
        compile(b"@ == 1").unwrap_err(),
        IrError::Parse(ParseError { pos: 0, kind: ParseErrorKind::MalformedToken })
    );
}

#[test]
fn nested_parentheses_and_not() {
    let r = compile(b"!((@x >= 1) && (@x < 10))").unwrap();
    let expected = vec![
        var("x"),
        i32c(1),
        op(ExprOpr::Ge),
        var("x"),
        i32c(10),
        op(ExprOpr::Lt),
        op(ExprOpr::And),
        op(ExprOpr::Not),
    ];
    assert_eq!(r.tokens, expected);
}

#[test]
fn double_negation() {
    let r = compile(b"!!false").unwrap();
    let expected = vec![
        ExprToken::Lit(Const::Boolean(false)),
        op(ExprOpr::Not),
        op(ExprOpr::Not),
    ];
    assert_eq!(r.tokens, expected);
}
