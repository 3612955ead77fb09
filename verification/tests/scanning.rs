use aqa::scanner::{scan, Error, ErrorType, Scanner, Token, TokenType};
use aqa::{Position, Value};

fn scan_all(src: &str) -> Result<Vec<Token>, Error> {
    let mut scanner = Scanner::new(String::from(src));
    scan(&mut scanner)
}

fn kinds(src: &str) -> Vec<TokenType> {
    scan_all(src).unwrap().into_iter().map(|t| t.token_type).collect()
}

#[test]
fn empty_input_is_one_eof() {
    let tokens = scan_all("").unwrap();
    assert_eq!(tokens.len(), 1);
    assert_eq!(tokens[0].token_type, TokenType::Eof);
    assert_eq!(tokens[0].position, Position { line: 1, column: 1 });
}

#[test]
fn blanks_only_yield_eof() {
    assert_eq!(kinds("  \t \r "), vec![TokenType::Eof]);
}

#[test]
fn assign_is_one_token() {
    assert_eq!(kinds("<-"), vec![TokenType::Assign, TokenType::Eof]);
}

#[test]
fn less_or_equal_is_one_token() {
    assert_eq!(kinds("<="), vec![TokenType::LessThanOrEqualTo, TokenType::Eof]);
}

#[test]
fn less_than_leaves_next_character_alone() {
    assert_eq!(
        kinds("<5"),
        vec![
            TokenType::LessThan,
            TokenType::Literal(Value::Int(5)),
            TokenType::Eof,
        ]
    );
}

#[test]
fn bare_less_than_at_end() {
    assert_eq!(kinds("<"), vec![TokenType::LessThan, TokenType::Eof]);
}

#[test]
fn greater_forms() {
    assert_eq!(
        kinds("> >="),
        vec![TokenType::GreaterThan, TokenType::GreaterThanOrEqualTo, TokenType::Eof]
    );
}

#[test]
fn not_equal_needs_equals_sign() {
    assert_eq!(kinds("!="), vec![TokenType::NotEqualTo, TokenType::Eof]);
    let err = scan_all("!x").unwrap_err();
    assert_eq!(err.error_type, ErrorType::UnexpectedChar('x'));
    assert_eq!((err.line, err.column), (1, 2));
    let err = scan_all("!").unwrap_err();
    assert_eq!(err.error_type, ErrorType::UnexpectedEOF);
    assert_eq!((err.line, err.column), (1, 1));
}

#[test]
fn single_character_operators() {
    assert_eq!(
        kinds("+ - * / = ( )"),
        vec![
            TokenType::Add,
            TokenType::Subtract,
            TokenType::Multiply,
            TokenType::Divide,
            TokenType::EqualTo,
            TokenType::LeftParen,
            TokenType::RightParen,
            TokenType::Eof,
        ]
    );
}

#[test]
fn newline_is_a_token_not_a_blank() {
    assert_eq!(kinds("\n"), vec![TokenType::LineBreak, TokenType::Eof]);
}

#[test]
fn positions_track_lines_and_columns() {
    let tokens = scan_all("1\n2").unwrap();
    assert_eq!(tokens[0].position, Position { line: 1, column: 1 });
    assert_eq!(tokens[1].position, Position { line: 1, column: 2 });
    assert_eq!(tokens[1].token_type, TokenType::LineBreak);
    assert_eq!(tokens[2].position, Position { line: 2, column: 1 });
    assert_eq!(tokens[2].token_type, TokenType::Literal(Value::Int(2)));
    assert_eq!(tokens[3].position, Position { line: 2, column: 2 });
}

#[test]
fn leading_blanks_shift_the_column() {
    let tokens = scan_all("   42").unwrap();
    assert_eq!(tokens[0].position, Position { line: 1, column: 4 });
    assert_eq!(tokens[0].token_type, TokenType::Literal(Value::Int(42)));
}

#[test]
fn integer_literals() {
    assert_eq!(kinds("007"), vec![TokenType::Literal(Value::Int(7)), TokenType::Eof]);
    assert_eq!(
        kinds("9223372036854775807"),
        vec![TokenType::Literal(Value::Int(i64::MAX)), TokenType::Eof]
    );
}

#[test]
fn integer_too_large_fails_at_literal_start() {
    let err = scan_all(" 9223372036854775808").unwrap_err();
    assert_eq!(err.error_type, ErrorType::FailedToParseInt);
    assert_eq!((err.line, err.column), (1, 2));
}

#[test]
fn float_literals_carry_their_bits() {
    assert_eq!(
        kinds("3.5"),
        vec![TokenType::Literal(Value::Float(3.5f64.to_bits())), TokenType::Eof]
    );
    assert_eq!(
        kinds("0.1"),
        vec![TokenType::Literal(Value::Float(0.1f64.to_bits())), TokenType::Eof]
    );
}

#[test]
fn two_dots_fail_to_parse_as_float() {
    let err = scan_all("1.2.3").unwrap_err();
    assert_eq!(err.error_type, ErrorType::FailedToParseFloat);
    assert_eq!((err.line, err.column), (1, 1));
}

#[test]
fn letter_glued_to_number_is_rejected() {
    let err = scan_all("12a").unwrap_err();
    assert_eq!(err.error_type, ErrorType::UnexpectedChar('a'));
    assert_eq!((err.line, err.column), (1, 3));
}

#[test]
fn unknown_character_is_rejected_in_place() {
    let err = scan_all("@").unwrap_err();
    assert_eq!(err.error_type, ErrorType::UnexpectedChar('@'));
    assert_eq!((err.line, err.column), (1, 1));
}

#[test]
fn text_literal_plain() {
    assert_eq!(
        kinds("'ab'"),
        vec![TokenType::Literal(Value::String(String::from("ab"))), TokenType::Eof]
    );
}

#[test]
fn text_literal_escapes() {
    assert_eq!(
        kinds("'a\\nb'"),
        vec![TokenType::Literal(Value::String(String::from("a\nb"))), TokenType::Eof]
    );
    assert_eq!(
        kinds("'a\\'b'"),
        vec![TokenType::Literal(Value::String(String::from("a'b"))), TokenType::Eof]
    );
    assert_eq!(
        kinds("'a\\tb'"),
        vec![TokenType::Literal(Value::String(String::from("atb"))), TokenType::Eof]
    );
}

#[test]
fn unterminated_text_fails_at_its_opening_quote() {
    let err = scan_all("'abc").unwrap_err();
    assert_eq!(err.error_type, ErrorType::UnexpectedEOF);
    assert_eq!((err.line, err.column), (1, 1));
}

#[test]
fn keywords_resolve() {
    assert_eq!(
        kinds("CONSTANT DIV MOD AND OR NOT"),
        vec![
            TokenType::Constant,
            TokenType::IntDivide,
            TokenType::Modulus,
            TokenType::LogicalAnd,
            TokenType::LogicalOr,
            TokenType::LogicalNot,
            TokenType::Eof,
        ]
    );
    assert_eq!(
        kinds("REPEAT UNTIL WHILE ENDWHILE FOR TO IN ENDFOR"),
        vec![
            TokenType::Repeat,
            TokenType::Until,
            TokenType::While,
            TokenType::EndWhile,
            TokenType::For,
            TokenType::To,
            TokenType::In,
            TokenType::EndFor,
            TokenType::Eof,
        ]
    );
    assert_eq!(
        kinds("IF THEN ELSE ENDIF OUTPUT"),
        vec![
            TokenType::If,
            TokenType::Then,
            TokenType::Else,
            TokenType::EndIf,
            TokenType::Output,
            TokenType::Eof,
        ]
    );
}

#[test]
fn booleans_and_identifiers() {
    assert_eq!(
        kinds("True False truth"),
        vec![
            TokenType::Literal(Value::Bool(true)),
            TokenType::Literal(Value::Bool(false)),
            TokenType::Identifier(String::from("truth")),
            TokenType::Eof,
        ]
    );
}

#[test]
fn scan_token_steps_one_at_a_time() {
    let mut scanner = Scanner::new(String::from("1 <- 2"));
    let t = scanner.scan_token().unwrap();
    assert_eq!(t.token_type, TokenType::Literal(Value::Int(1)));
    let t = scanner.scan_token().unwrap();
    assert_eq!(t.token_type, TokenType::Assign);
    let t = scanner.scan_token().unwrap();
    assert_eq!(t.token_type, TokenType::Literal(Value::Int(2)));
    let t = scanner.scan_token().unwrap();
    assert_eq!(t.token_type, TokenType::Eof);
}
