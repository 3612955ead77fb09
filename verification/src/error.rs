//! The unified error type: one failure, tagged with the stage it came from,
//! keeping that stage's own kind and position.

use vstd::prelude::*;
use crate::{scanner, parser, interpreter};

verus! {

/// A failure of the pipeline, tagged by stage.
#[derive(Debug)]
pub enum Error {
    ScannerError(scanner::Error),
    ParserError(parser::Error),
    InterpreterError(interpreter::Error),
}

/// The mathematical shape of a pipeline failure.
pub enum ErrorView {
    Scanner(scanner::ErrorView),
    Parser(parser::ErrorView),
    Interpreter(interpreter::ErrorView),
}

impl View for Error {
    type V = ErrorView;

    open spec fn view(&self) -> ErrorView {
        match self {
            Error::ScannerError(e) => ErrorView::Scanner(e@),
            Error::ParserError(e) => ErrorView::Parser(e@),
            Error::InterpreterError(e) => ErrorView::Interpreter(e@),
        }
    }
}

impl From<scanner::Error> for Error {
    fn from(value: scanner::Error) -> (r: Self) {
        Self::ScannerError(value)
    }
}

impl vstd::std_specs::convert::FromSpecImpl<scanner::Error> for Error {
    open spec fn obeys_from_spec() -> bool {
        true
    }

    open spec fn from_spec(value: scanner::Error) -> Self {
        Error::ScannerError(value)
    }
}

impl From<parser::Error> for Error {
    fn from(value: parser::Error) -> (r: Self) {
        Self::ParserError(value)
    }
}

impl vstd::std_specs::convert::FromSpecImpl<parser::Error> for Error {
    open spec fn obeys_from_spec() -> bool {
        true
    }

    open spec fn from_spec(value: parser::Error) -> Self {
        Error::ParserError(value)
    }
}

impl From<interpreter::Error> for Error {
    fn from(value: interpreter::Error) -> (r: Self) {
        Self::InterpreterError(value)
    }
}

impl vstd::std_specs::convert::FromSpecImpl<interpreter::Error> for Error {
    open spec fn obeys_from_spec() -> bool {
        true
    }

    open spec fn from_spec(value: interpreter::Error) -> Self {
        Error::InterpreterError(value)
    }
}

} // verus!
