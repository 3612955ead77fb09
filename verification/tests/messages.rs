use aqa::error::Error;
use aqa::run;

fn message_of(src: &str) -> String {
    run(String::from(src)).unwrap_err().message()
}

#[test]
fn scan_errors_read_with_their_position() {
    assert_eq!(message_of("!x"), "at line 1, column 2: Unexpected character: 'x'");
    assert_eq!(message_of("'abc"), "at line 1, column 1: Unexpected EOF");
    assert_eq!(message_of("1.2.3"), "at line 1, column 1: failed to parse float");
    assert_eq!(
        message_of("  99999999999999999999"),
        "at line 1, column 3: failed to parse int"
    );
}

#[test]
fn parse_errors_read_with_their_position() {
    assert_eq!(message_of("(1+2"), "at line 1, column 5: Expected Right Parenthesis");
    assert_eq!(message_of(""), "at line 1, column 1: Unexpected token");
}

#[test]
fn evaluation_errors_read_without_a_position() {
    assert_eq!(message_of("1 + 'a'"), "Mismatched Type");
    assert_eq!(message_of("1/0"), "Division By Zero");
    assert_eq!(message_of("9223372036854775807 * 2"), "Integer Overflow");
}

#[test]
fn a_multi_line_position_is_rendered_in_full() {
    let err = run(String::from("\n\n   @")).unwrap_err();
    match &err {
        Error::ScannerError(e) => assert_eq!((e.line, e.column), (3, 4)),
        other => panic!("wrong stage: {:?}", other),
    }
    assert_eq!(err.message(), "at line 3, column 4: Unexpected character: '@'");
}
