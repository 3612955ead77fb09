use aqa::error::Error;
use aqa::interpreter;
use aqa::parser::{ExprType, Parser};
use aqa::scanner::{self, scan, Scanner, Token, TokenType};
use aqa::{run, Position, Value};

fn run_src(src: &str) -> Result<Value, Error> {
    run(String::from(src))
}

#[test]
fn an_integer_literal_runs_to_itself() {
    assert_eq!(run_src("42").unwrap(), Value::Int(42));
    assert_eq!(run_src("  42").unwrap(), Value::Int(42));
    assert_eq!(run_src("42  ").unwrap(), Value::Int(42));
    assert_eq!(run_src(" \t 7 \r ").unwrap(), Value::Int(7));
    assert_eq!(run_src("0").unwrap(), Value::Int(0));
    assert_eq!(run_src("9223372036854775807").unwrap(), Value::Int(i64::MAX));
}

#[test]
fn parenthesised_product_parses_and_evaluates() {
    let mut s = Scanner::new(String::from("(1+2)*3"));
    let tokens = scan(&mut s).unwrap();
    let mut parser = Parser::new(tokens);
    let tree = parser.parse().unwrap();
    let expected = ExprType::Binary(
        Box::new(ExprType::Binary(
            Box::new(ExprType::Literal(Value::Int(1))),
            Token { token_type: TokenType::Add, position: Position { line: 1, column: 3 } },
            Box::new(ExprType::Literal(Value::Int(2))),
        )),
        Token { token_type: TokenType::Multiply, position: Position { line: 1, column: 6 } },
        Box::new(ExprType::Literal(Value::Int(3))),
    );
    assert_eq!(tree, expected);
    assert_eq!(interpreter::evaluate(tree).unwrap(), Value::Int(9));
    assert_eq!(run_src("(1+2)*3").unwrap(), Value::Int(9));
}

#[test]
fn precedence_and_associativity() {
    assert_eq!(run_src("1+2*3").unwrap(), Value::Int(7));
    assert_eq!(run_src("1-2-3").unwrap(), Value::Int(-4));
    assert_eq!(run_src("8/4/2").unwrap(), Value::Int(1));
    assert_eq!(run_src("1+1 = 2").unwrap(), Value::Bool(true));
    assert_eq!(run_src("1+1 < 2").unwrap(), Value::Bool(false));
}

#[test]
fn integer_division_truncates_toward_zero() {
    assert_eq!(run_src("7/2").unwrap(), Value::Int(3));
    assert_eq!(run_src("(0-7)/2").unwrap(), Value::Int(-3));
}

#[test]
fn integer_plus_text_is_a_type_mismatch() {
    let err = run_src("1 + 'a'").unwrap_err();
    match err {
        Error::InterpreterError(e) => {
            assert_eq!(e.error_type, interpreter::ErrorType::MismatchedType);
            assert_eq!(e.position, Position { line: 1, column: 3 });
        }
        other => panic!("wrong stage: {:?}", other),
    }
}

#[test]
fn integer_compared_to_float_is_a_type_mismatch() {
    let err = run_src("2 > 3.5").unwrap_err();
    match err {
        Error::InterpreterError(e) => {
            assert_eq!(e.error_type, interpreter::ErrorType::MismatchedType);
            assert_eq!(e.position, Position { line: 1, column: 3 });
        }
        other => panic!("wrong stage: {:?}", other),
    }
}

#[test]
fn unterminated_text_is_a_scan_error_at_the_quote() {
    let err = run_src("'abc").unwrap_err();
    match err {
        Error::ScannerError(e) => {
            assert_eq!(e.error_type, scanner::ErrorType::UnexpectedEOF);
            assert_eq!((e.line, e.column), (1, 1));
        }
        other => panic!("wrong stage: {:?}", other),
    }
}

#[test]
fn missing_right_parenthesis_is_reported_at_the_end() {
    let err = run_src("(1+2").unwrap_err();
    match err {
        Error::ParserError(e) => {
            assert!(matches!(e.error_type, aqa::parser::ErrorType::ExpectedRightParen));
            assert_eq!(e.position, Position { line: 1, column: 5 });
        }
        other => panic!("wrong stage: {:?}", other),
    }
}

#[test]
fn an_empty_expression_is_an_unexpected_token() {
    let err = run_src("").unwrap_err();
    match err {
        Error::ParserError(e) => match e.error_type {
            aqa::parser::ErrorType::UnexpectedToken(t) => {
                assert_eq!(t.token_type, TokenType::Eof)
            }
            other => panic!("wrong kind: {:?}", other),
        },
        other => panic!("wrong stage: {:?}", other),
    }
}

#[test]
fn division_by_zero_is_reported() {
    let err = run_src("1/0").unwrap_err();
    match err {
        Error::InterpreterError(e) => {
            assert_eq!(e.error_type, interpreter::ErrorType::DivisionByZero);
            assert_eq!(e.position, Position { line: 1, column: 2 });
        }
        other => panic!("wrong stage: {:?}", other),
    }
}

#[test]
fn integer_overflow_is_reported() {
    let err = run_src("9223372036854775807 + 1").unwrap_err();
    match err {
        Error::InterpreterError(e) => {
            assert_eq!(e.error_type, interpreter::ErrorType::IntegerOverflow)
        }
        other => panic!("wrong stage: {:?}", other),
    }
}

#[test]
fn float_arithmetic_matches_ieee_binary64() {
    assert_eq!(run_src("3.5").unwrap(), Value::Float(3.5f64.to_bits()));
    assert_eq!(run_src("0.1 + 0.2").unwrap(), Value::Float((0.1f64 + 0.2f64).to_bits()));
    assert_eq!(run_src("1.5 - 0.25").unwrap(), Value::Float((1.5f64 - 0.25f64).to_bits()));
    assert_eq!(run_src("2.5 * 2.0").unwrap(), Value::Float(5.0f64.to_bits()));
    assert_eq!(run_src("7.0 / 2.0").unwrap(), Value::Float(3.5f64.to_bits()));
    assert_eq!(run_src("1.0 / 0.0").unwrap(), Value::Float(f64::INFINITY.to_bits()));
    assert_eq!(run_src("1.5 < 2.5").unwrap(), Value::Bool(true));
    assert_eq!(run_src("2.5 <= 2.5").unwrap(), Value::Bool(true));
    assert_eq!(run_src("3.5 > 3.5").unwrap(), Value::Bool(false));
    assert_eq!(run_src("3.5 >= 3.25").unwrap(), Value::Bool(true));
    assert_eq!(run_src("2.5 = 2.5").unwrap(), Value::Bool(true));
    assert_eq!(run_src("2.5 != 2.5").unwrap(), Value::Bool(false));
}

#[test]
fn text_concatenation_through_the_pipeline() {
    assert_eq!(run_src("'ab' + 'cd'").unwrap(), Value::String(String::from("abcd")));
}

#[test]
fn logical_not_through_the_pipeline() {
    assert_eq!(run_src("NOT False").unwrap(), Value::Bool(true));
    assert_eq!(run_src("NOT True").unwrap(), Value::Bool(false));
}

#[test]
fn prefix_and_parses_but_does_not_evaluate() {
    // the grammar treats AND as a prefix operator; no dispatch row accepts it
    let err = run_src("AND True").unwrap_err();
    match err {
        Error::InterpreterError(e) => {
            assert_eq!(e.error_type, interpreter::ErrorType::MismatchedType)
        }
        other => panic!("wrong stage: {:?}", other),
    }
}

#[test]
fn mixed_numeric_arithmetic_does_not_widen() {
    let err = run_src("1 + 1.0").unwrap_err();
    assert!(matches!(err, Error::InterpreterError(_)));
}

#[test]
fn a_line_break_is_not_part_of_an_expression() {
    let err = run_src("\n1").unwrap_err();
    match err {
        Error::ParserError(e) => {
            assert!(matches!(e.error_type, aqa::parser::ErrorType::UnexpectedToken(_)))
        }
        other => panic!("wrong stage: {:?}", other),
    }
}
