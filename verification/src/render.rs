//! Human-readable messages for the error types, built and proved character
//! by character.
//!
//! Scanner and parser failures read `at line L, column C: <message>`;
//! evaluation failures read `<message>` alone, position held in the value.

use vstd::prelude::*;
use crate::{scanner, parser, interpreter, error};

verus! {

/// The decimal digit character of a value below ten.
pub open spec fn digit_char(d: nat) -> char {
    if d == 0 {
        '0'
    } else if d == 1 {
        '1'
    } else if d == 2 {
        '2'
    } else if d == 3 {
        '3'
    } else if d == 4 {
        '4'
    } else if d == 5 {
        '5'
    } else if d == 6 {
        '6'
    } else if d == 7 {
        '7'
    } else if d == 8 {
        '8'
    } else {
        '9'
    }
}

/// The decimal digits of a number, most significant first.
pub open spec fn dec_digits(n: nat) -> Seq<char>
    decreases n,
{
    if n < 10 {
        seq![digit_char(n)]
    } else {
        dec_digits(n / 10).push(digit_char(n % 10))
    }
}

/// The `at line L, column C: ` prefix of every positioned message.
pub open spec fn spec_position_prefix(line: int, col: int) -> Seq<char> {
    "at line "@ + dec_digits(line as nat) + ", column "@ + dec_digits(col as nat) + ": "@
}

/// The whole message of a scan failure.
pub open spec fn spec_scan_message(e: scanner::ErrorView) -> Seq<char> {
    spec_position_prefix(e.line, e.col) + (match e.error_type {
        scanner::ErrorType::UnexpectedEOF => "Unexpected EOF"@,
        scanner::ErrorType::UnexpectedChar(c) => "Unexpected character: '"@ + seq![c] + "'"@,
        scanner::ErrorType::FailedToParseFloat => "failed to parse float"@,
        scanner::ErrorType::FailedToParseInt => "failed to parse int"@,
    })
}

/// The whole message of a parse failure.
pub open spec fn spec_parse_message(e: parser::ErrorView) -> Seq<char> {
    spec_position_prefix(e.line, e.col) + (match e.error_type {
        parser::ErrorTypeView::UnexpectedToken(_) => "Unexpected token"@,
        parser::ErrorTypeView::ExpectedRightParen => "Expected Right Parenthesis"@,
    })
}

/// The whole message of an evaluation failure.
pub open spec fn spec_eval_message(e: interpreter::ErrorView) -> Seq<char> {
    match e.error_type {
        interpreter::ErrorType::MismatchedType => "Mismatched Type"@,
        interpreter::ErrorType::DivisionByZero => "Division By Zero"@,
        interpreter::ErrorType::IntegerOverflow => "Integer Overflow"@,
    }
}

/// The message of a pipeline failure: that of its stage's failure.
pub open spec fn spec_error_message(e: error::ErrorView) -> Seq<char> {
    match e {
        error::ErrorView::Scanner(se) => spec_scan_message(se),
        error::ErrorView::Parser(pe) => spec_parse_message(pe),
        error::ErrorView::Interpreter(ie) => spec_eval_message(ie),
    }
}

fn digit_char_of(d: usize) -> (c: char)
    requires
        d < 10,
    ensures
        c == digit_char(d as nat),
{
    if d == 0 {
        '0'
    } else if d == 1 {
        '1'
    } else if d == 2 {
        '2'
    } else if d == 3 {
        '3'
    } else if d == 4 {
        '4'
    } else if d == 5 {
        '5'
    } else if d == 6 {
        '6'
    } else if d == 7 {
        '7'
    } else if d == 8 {
        '8'
    } else {
        '9'
    }
}

/// Appends the decimal digits of `n`.
fn push_decimal(out: &mut Vec<char>, n: usize)
    ensures
        final(out)@ == old(out)@ + dec_digits(n as nat),
    decreases n,
{
    if n < 10 {
        out.push(digit_char_of(n));
        assert(final(out)@ =~= old(out)@ + dec_digits(n as nat));
    } else {
        push_decimal(out, n / 10);
        out.push(digit_char_of(n % 10));
        assert(final(out)@ =~= old(out)@ + dec_digits(n as nat));
    }
}

/// Appends every character of a literal.
fn push_str_chars(out: &mut Vec<char>, s: &str)
    ensures
        final(out)@ == old(out)@ + s@,
{
    let n = s.unicode_len();
    let mut k: usize = 0;
    while k < n
        invariant
            n == s@.len(),
            k <= n,
            out@ == old(out)@ + s@.subrange(0, k as int),
        decreases n - k,
    {
        proof {
            assert(s@.subrange(0, k as int).push(s@[k as int]) =~= s@.subrange(0, k as int + 1));
        }
        out.push(s.get_char(k));
        k = k + 1;
    }
    proof {
        assert(s@.subrange(0, n as int) =~= s@);
    }
}

impl scanner::Error {
    /// The display form of a scan failure.
    pub fn message(&self) -> (r: String)
        ensures
            r@ == spec_scan_message(self@),
    {
        let mut out: Vec<char> = Vec::new();
        push_str_chars(&mut out, "at line ");
        push_decimal(&mut out, self.line);
        push_str_chars(&mut out, ", column ");
        push_decimal(&mut out, self.column);
        push_str_chars(&mut out, ": ");
        match self.error_type {
            scanner::ErrorType::UnexpectedEOF => push_str_chars(&mut out, "Unexpected EOF"),
            scanner::ErrorType::UnexpectedChar(c) => {
                push_str_chars(&mut out, "Unexpected character: '");
                out.push(c);
                push_str_chars(&mut out, "'");
            },
            scanner::ErrorType::FailedToParseFloat => push_str_chars(
                &mut out,
                "failed to parse float",
            ),
            scanner::ErrorType::FailedToParseInt => push_str_chars(
                &mut out,
                "failed to parse int",
            ),
        }
        proof {
            assert(out@ =~= spec_scan_message(self@));
        }
        scanner::chars_to_string(&out)
    }
}

impl parser::Error {
    /// The display form of a parse failure.
    pub fn message(&self) -> (r: String)
        ensures
            r@ == spec_parse_message(self@),
    {
        let mut out: Vec<char> = Vec::new();
        push_str_chars(&mut out, "at line ");
        push_decimal(&mut out, self.position.line);
        push_str_chars(&mut out, ", column ");
        push_decimal(&mut out, self.position.column);
        push_str_chars(&mut out, ": ");
        match &self.error_type {
            parser::ErrorType::UnexpectedToken(_) => push_str_chars(&mut out, "Unexpected token"),
            parser::ErrorType::ExpectedRightParen => push_str_chars(
                &mut out,
                "Expected Right Parenthesis",
            ),
        }
        proof {
            assert(out@ =~= spec_parse_message(self@));
        }
        scanner::chars_to_string(&out)
    }
}

impl interpreter::Error {
    /// The display form of an evaluation failure.
    pub fn message(&self) -> (r: String)
        ensures
            r@ == spec_eval_message(self@),
    {
        match self.error_type {
            interpreter::ErrorType::MismatchedType => {
                let mut out: Vec<char> = Vec::new();
                push_str_chars(&mut out, "Mismatched Type");
                proof {
                    assert(out@ =~= spec_eval_message(self@));
                }
                scanner::chars_to_string(&out)
            },
            interpreter::ErrorType::DivisionByZero => {
                let mut out: Vec<char> = Vec::new();
                push_str_chars(&mut out, "Division By Zero");
                proof {
                    assert(out@ =~= spec_eval_message(self@));
                }
                scanner::chars_to_string(&out)
            },
            interpreter::ErrorType::IntegerOverflow => {
                let mut out: Vec<char> = Vec::new();
                push_str_chars(&mut out, "Integer Overflow");
                proof {
                    assert(out@ =~= spec_eval_message(self@));
                }
                scanner::chars_to_string(&out)
            },
        }
    }
}

impl error::Error {
    /// The display form of a pipeline failure: that of its stage.
    pub fn message(&self) -> (r: String)
        ensures
            r@ == spec_error_message(self@),
    {
        match self {
            error::Error::ScannerError(e) => e.message(),
            error::Error::ParserError(e) => e.message(),
            error::Error::InterpreterError(e) => e.message(),
        }
    }
}

} // verus!
