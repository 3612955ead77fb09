//! A front end for a small exam-style pseudocode dialect.
//!
//! Source text is scanned into position-tagged tokens, the tokens are parsed
//! into an expression tree by precedence-climbing recursive descent, and the
//! tree is walked bottom-up to a run-time value.  Each stage has a
//! mathematical model (a spec function over sequences of characters, token
//! views, and tree views), and each executable stage is proved to return
//! exactly what its model says.

use vstd::prelude::*;

pub mod float_bits;
pub mod scanner;
pub mod parser;
pub mod interpreter;
pub mod error;
pub mod laws;
pub mod render;

verus! {

/// A line/column pair, 1-based, naming the first character of a lexeme.
#[derive(Clone, Copy, Debug, PartialEq, Eq, Structural)]
pub struct Position {
    pub line: usize,
    pub column: usize,
}

/// A run-time value: a 64-bit signed integer, a 64-bit IEEE floating-point
/// number held as its bit pattern, a boolean, or an owned text.
#[derive(Debug, PartialEq)]
pub enum Value {
    Int(i64),
    Float(u64),
    Bool(bool),
    String(String),
}

/// The mathematical shape of a `Value`: texts become character sequences.
pub enum ValueView {
    Int(i64),
    Float(u64),
    Bool(bool),
    Text(Seq<char>),
}

impl View for Value {
    type V = ValueView;

    open spec fn view(&self) -> ValueView {
        match self {
            Value::Int(i) => ValueView::Int(*i),
            Value::Float(bits) => ValueView::Float(*bits),
            Value::Bool(b) => ValueView::Bool(*b),
            Value::String(s) => ValueView::Text(s@),
        }
    }
}

impl Clone for Value {
    fn clone(&self) -> (r: Self)
        ensures
            r@ == self@,
    {
        match self {
            Value::Int(i) => Value::Int(*i),
            Value::Float(bits) => Value::Float(*bits),
            Value::Bool(b) => Value::Bool(*b),
            Value::String(s) => Value::String(s.clone()),
        }
    }
}

/// What the whole pipeline yields from a source text: its token sequence
/// parsed as one expression and evaluated, or the first failure of any
/// stage, tagged with that stage.
pub open spec fn spec_run(s: Seq<char>) -> Result<ValueView, error::ErrorView> {
    match scanner::spec_scan(s, scanner::ScanState { i: 0, line: 1, col: 1 }) {
        Err(e) => Err(error::ErrorView::Scanner(e)),
        Ok(toks) => {
            let step = parser::spec_expression(toks, 0);
            match step.res {
                Err(e) => Err(error::ErrorView::Parser(e)),
                Ok(expr) => match interpreter::spec_eval(expr) {
                    Err(e) => Err(error::ErrorView::Interpreter(e)),
                    Ok(v) => Ok(v),
                },
            }
        },
    }
}

/// A pipeline outcome, seen mathematically.
pub open spec fn run_res_view(r: Result<Value, error::Error>) -> Result<
    ValueView,
    error::ErrorView,
> {
    match r {
        Ok(v) => Ok(v@),
        Err(e) => Err(e@),
    }
}

/// Runs the whole pipeline on one source text: scan every token, parse one
/// expression, evaluate it; fail fast at the first error of any stage.
///
/// The bound on the text's length is a machine limit: it keeps the
/// scanner's 1-based line and column counters inside `usize`.
pub fn run(contents: String) -> (r: Result<Value, error::Error>)
    requires
        contents@.len() < usize::MAX,
    ensures
        run_res_view(r) == spec_run(contents@),
{
    let mut scanner = scanner::Scanner::new(contents);
    let tokens = match scanner::scan(&mut scanner) {
        Err(e) => {
            return Err(error::Error::ScannerError(e));
        },
        Ok(t) => t,
    };
    let mut parser = parser::Parser::new(tokens);
    let expression = match parser.parse() {
        Err(e) => {
            return Err(error::Error::ParserError(e));
        },
        Ok(x) => x,
    };
    match interpreter::evaluate(expression) {
        Err(e) => Err(error::Error::InterpreterError(e)),
        Ok(value) => Ok(value),
    }
}

} // verus!
