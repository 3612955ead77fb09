use aqa::interpreter::{evaluate, ErrorType};
use aqa::parser::ExprType;
use aqa::scanner::{Token, TokenType};
use aqa::{Position, Value};

fn op(token_type: TokenType) -> Token {
    Token { token_type, position: Position { line: 1, column: 1 } }
}

fn lit(v: Value) -> Box<ExprType> {
    Box::new(ExprType::Literal(v))
}

#[test]
fn unary_minus_negates_integers() {
    let e = ExprType::Unary(op(TokenType::Subtract), lit(Value::Int(5)));
    assert_eq!(evaluate(e).unwrap(), Value::Int(-5));
}

#[test]
fn unary_minus_flips_a_float_sign() {
    let e = ExprType::Unary(op(TokenType::Subtract), lit(Value::Float(2.5f64.to_bits())));
    assert_eq!(evaluate(e).unwrap(), Value::Float((-2.5f64).to_bits()));
}

#[test]
fn unary_minus_of_smallest_integer_overflows() {
    let e = ExprType::Unary(op(TokenType::Subtract), lit(Value::Int(i64::MIN)));
    assert_eq!(evaluate(e).unwrap_err().error_type, ErrorType::IntegerOverflow);
}

#[test]
fn logical_not_complements_booleans_only() {
    let e = ExprType::Unary(op(TokenType::LogicalNot), lit(Value::Bool(false)));
    assert_eq!(evaluate(e).unwrap(), Value::Bool(true));
    let e = ExprType::Unary(op(TokenType::LogicalNot), lit(Value::Int(1)));
    assert_eq!(evaluate(e).unwrap_err().error_type, ErrorType::MismatchedType);
}

#[test]
fn smallest_integer_divided_by_minus_one_overflows() {
    let e = ExprType::Binary(lit(Value::Int(i64::MIN)), op(TokenType::Divide), lit(Value::Int(-1)));
    assert_eq!(evaluate(e).unwrap_err().error_type, ErrorType::IntegerOverflow);
}

#[test]
fn interpreter_errors_carry_the_operator_position() {
    let operator = Token {
        token_type: TokenType::Add,
        position: Position { line: 3, column: 7 },
    };
    let e = ExprType::Binary(lit(Value::Int(1)), operator, lit(Value::Bool(true)));
    let err = evaluate(e).unwrap_err();
    assert_eq!(err.error_type, ErrorType::MismatchedType);
    assert_eq!(err.position, Position { line: 3, column: 7 });
}

#[test]
fn evaluation_is_left_to_right_and_fails_fast() {
    // the left child fails first, so its error is the one reported
    let bad_left = ExprType::Binary(
        lit(Value::Int(1)),
        Token { token_type: TokenType::Add, position: Position { line: 1, column: 1 } },
        lit(Value::Bool(true)),
    );
    let bad_right = ExprType::Binary(
        lit(Value::Bool(true)),
        Token { token_type: TokenType::Multiply, position: Position { line: 2, column: 2 } },
        lit(Value::Int(1)),
    );
    let e = ExprType::Binary(
        Box::new(bad_left),
        Token { token_type: TokenType::Add, position: Position { line: 9, column: 9 } },
        Box::new(bad_right),
    );
    let err = evaluate(e).unwrap_err();
    assert_eq!(err.position, Position { line: 1, column: 1 });
}

#[test]
fn evaluating_twice_is_bit_identical() {
    fn tree() -> ExprType {
        ExprType::Binary(
            Box::new(ExprType::Binary(
                Box::new(ExprType::Literal(Value::Float(0.1f64.to_bits()))),
                Token { token_type: TokenType::Add, position: Position { line: 1, column: 4 } },
                Box::new(ExprType::Literal(Value::Float(0.2f64.to_bits()))),
            )),
            Token { token_type: TokenType::Multiply, position: Position { line: 1, column: 8 } },
            Box::new(ExprType::Literal(Value::Float(3.0f64.to_bits()))),
        )
    }
    let first = evaluate(tree()).unwrap();
    let second = evaluate(tree()).unwrap();
    assert_eq!(first, second);
    match (first, second) {
        (Value::Float(a), Value::Float(b)) => assert_eq!(a, b),
        _ => panic!("expected floats"),
    }
}

#[test]
fn text_concatenation() {
    let e = ExprType::Binary(
        lit(Value::String(String::from("ab"))),
        op(TokenType::Add),
        lit(Value::String(String::from("cd"))),
    );
    assert_eq!(evaluate(e).unwrap(), Value::String(String::from("abcd")));
}

#[test]
fn text_supports_only_concatenation() {
    let e = ExprType::Binary(
        lit(Value::String(String::from("ab"))),
        op(TokenType::Subtract),
        lit(Value::String(String::from("cd"))),
    );
    assert_eq!(evaluate(e).unwrap_err().error_type, ErrorType::MismatchedType);
}

#[test]
fn booleans_have_no_binary_operators() {
    let e = ExprType::Binary(lit(Value::Bool(true)), op(TokenType::EqualTo), lit(Value::Bool(true)));
    assert_eq!(evaluate(e).unwrap_err().error_type, ErrorType::MismatchedType);
}

#[test]
fn float_comparisons_follow_the_ieee_order() {
    let cmp = |t: TokenType, a: f64, b: f64| {
        evaluate(ExprType::Binary(
            lit(Value::Float(a.to_bits())),
            op(t),
            lit(Value::Float(b.to_bits())),
        ))
        .unwrap()
    };
    assert_eq!(cmp(TokenType::LessThan, 1.5, 2.5), Value::Bool(true));
    assert_eq!(cmp(TokenType::GreaterThan, 1.5, 2.5), Value::Bool(false));
    assert_eq!(cmp(TokenType::LessThanOrEqualTo, 2.5, 2.5), Value::Bool(true));
    assert_eq!(cmp(TokenType::GreaterThanOrEqualTo, 2.5, 3.5), Value::Bool(false));
    assert_eq!(cmp(TokenType::EqualTo, 2.5, 2.5), Value::Bool(true));
    assert_eq!(cmp(TokenType::NotEqualTo, 2.5, 2.5), Value::Bool(false));
    // NaN compares with nothing, and equals nothing, itself included
    assert_eq!(cmp(TokenType::LessThan, f64::NAN, f64::NAN), Value::Bool(false));
    assert_eq!(cmp(TokenType::EqualTo, f64::NAN, f64::NAN), Value::Bool(false));
    assert_eq!(cmp(TokenType::NotEqualTo, f64::NAN, 1.0), Value::Bool(true));
}
