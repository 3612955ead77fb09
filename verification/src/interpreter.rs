//! The evaluator: an expression tree in, a run-time value out.
//!
//! A pure bottom-up walk: children are evaluated before their parent, left
//! before right, with no short-circuiting.  Dispatch is a closed table over
//! the triple (left kind, operator, right kind): each numeric kind supports
//! arithmetic yielding the same kind and comparisons yielding a boolean,
//! texts support only concatenation, and every triple outside the table --
//! mixed integer/float operands included -- is a mismatched-type error at
//! the operator's position.
//!
//! Integer arithmetic is exact or fails: a result outside the 64-bit range
//! is an overflow error and a zero divisor a division-by-zero error, both
//! positioned at the operator; division truncates toward zero.  Float
//! arithmetic follows IEEE 754 binary64 (a zero divisor yields an infinity
//! or NaN), through the named bit-level operations of `float_bits`.

use vstd::prelude::*;
use crate::{Position, Value, ValueView};
use crate::scanner::{Token, TokenView, TokenTypeView, TokenType};
use crate::parser::{ExprType, ExprView};
use crate::float_bits::{add_bits, sub_bits, mul_bits, div_bits, lt_bits, le_bits, eq_bits};

verus! {

/// What went wrong while evaluating.
#[derive(Clone, Copy, Debug, PartialEq, Eq, Structural)]
pub enum ErrorType {
    MismatchedType,
    DivisionByZero,
    IntegerOverflow,
}

/// An evaluation failure, positioned at the operator that caused it.
#[derive(Clone, Copy, Debug, PartialEq, Eq, Structural)]
pub struct Error {
    pub position: Position,
    pub error_type: ErrorType,
}

impl Error {
    pub fn new(position: Position, error_type: ErrorType) -> (e: Self)
        ensures
            e.position == position,
            e.error_type == error_type,
    {
        Self { position, error_type }
    }
}

/// The mathematical shape of an evaluation failure.
pub struct ErrorView {
    pub line: int,
    pub col: int,
    pub error_type: ErrorType,
}

impl View for Error {
    type V = ErrorView;

    open spec fn view(&self) -> ErrorView {
        ErrorView {
            line: self.position.line as int,
            col: self.position.column as int,
            error_type: self.error_type,
        }
    }
}

/// A value-or-error result, seen mathematically.
pub open spec fn eval_res_view(r: Result<Value, Error>) -> Result<ValueView, ErrorView> {
    match r {
        Ok(v) => Ok(v@),
        Err(e) => Err(e@),
    }
}

/// An evaluation failure of the given kind at the operator's position.
pub open spec fn fail_at(op: TokenView, error_type: ErrorType) -> ErrorView {
    ErrorView { line: op.line, col: op.col, error_type }
}

/// A prefix operator applied to one value: minus negates either numeric
/// kind (a 64-bit integer minimum cannot be negated and overflows; a float
/// negates by its sign bit), NOT complements a boolean, and every other
/// pairing is a type mismatch.
pub open spec fn spec_eval_unary(op: TokenView, v: ValueView) -> Result<ValueView, ErrorView> {
    match (op.token_type, v) {
        (TokenTypeView::Subtract, ValueView::Int(i)) => if i == i64::MIN {
            Err(fail_at(op, ErrorType::IntegerOverflow))
        } else {
            Ok(ValueView::Int((-i) as i64))
        },
        (TokenTypeView::Subtract, ValueView::Float(bits)) => Ok(
            ValueView::Float(bits ^ 0x8000_0000_0000_0000u64),
        ),
        (TokenTypeView::LogicalNot, ValueView::Bool(b)) => Ok(ValueView::Bool(!b)),
        _ => Err(fail_at(op, ErrorType::MismatchedType)),
    }
}

/// The closed binary dispatch table over (left kind, operator, right kind).
pub open spec fn spec_eval_binary(lv: ValueView, op: TokenView, rv: ValueView) -> Result<
    ValueView,
    ErrorView,
> {
    match (lv, op.token_type, rv) {
        (ValueView::Int(a), TokenTypeView::Add, ValueView::Int(b)) => if i64::MIN <= a + b
            <= i64::MAX {
            Ok(ValueView::Int((a + b) as i64))
        } else {
            Err(fail_at(op, ErrorType::IntegerOverflow))
        },
        (ValueView::Int(a), TokenTypeView::Subtract, ValueView::Int(b)) => if i64::MIN <= a - b
            <= i64::MAX {
            Ok(ValueView::Int((a - b) as i64))
        } else {
            Err(fail_at(op, ErrorType::IntegerOverflow))
        },
        (ValueView::Int(a), TokenTypeView::Multiply, ValueView::Int(b)) => if i64::MIN <= a * b
            <= i64::MAX {
            Ok(ValueView::Int((a * b) as i64))
        } else {
            Err(fail_at(op, ErrorType::IntegerOverflow))
        },
        (ValueView::Int(a), TokenTypeView::Divide, ValueView::Int(b)) => if b == 0 {
            Err(fail_at(op, ErrorType::DivisionByZero))
        } else {
            match a.checked_div(b) {
                Some(q) => Ok(ValueView::Int(q)),
                None => Err(fail_at(op, ErrorType::IntegerOverflow)),
            }
        },
        (ValueView::Int(a), TokenTypeView::LessThan, ValueView::Int(b)) => Ok(
            ValueView::Bool(a < b),
        ),
        (ValueView::Int(a), TokenTypeView::LessThanOrEqualTo, ValueView::Int(b)) => Ok(
            ValueView::Bool(a <= b),
        ),
        (ValueView::Int(a), TokenTypeView::GreaterThan, ValueView::Int(b)) => Ok(
            ValueView::Bool(a > b),
        ),
        (ValueView::Int(a), TokenTypeView::GreaterThanOrEqualTo, ValueView::Int(b)) => Ok(
            ValueView::Bool(a >= b),
        ),
        (ValueView::Int(a), TokenTypeView::EqualTo, ValueView::Int(b)) => Ok(
            ValueView::Bool(a == b),
        ),
        (ValueView::Int(a), TokenTypeView::NotEqualTo, ValueView::Int(b)) => Ok(
            ValueView::Bool(a != b),
        ),
        (ValueView::Float(x), TokenTypeView::Add, ValueView::Float(y)) => Ok(
            ValueView::Float(add_bits(x, y)),
        ),
        (ValueView::Float(x), TokenTypeView::Subtract, ValueView::Float(y)) => Ok(
            ValueView::Float(sub_bits(x, y)),
        ),
        (ValueView::Float(x), TokenTypeView::Multiply, ValueView::Float(y)) => Ok(
            ValueView::Float(mul_bits(x, y)),
        ),
        (ValueView::Float(x), TokenTypeView::Divide, ValueView::Float(y)) => Ok(
            ValueView::Float(div_bits(x, y)),
        ),
        (ValueView::Float(x), TokenTypeView::LessThan, ValueView::Float(y)) => Ok(
            ValueView::Bool(lt_bits(x, y)),
        ),
        (ValueView::Float(x), TokenTypeView::LessThanOrEqualTo, ValueView::Float(y)) => Ok(
            ValueView::Bool(le_bits(x, y)),
        ),
        (ValueView::Float(x), TokenTypeView::GreaterThan, ValueView::Float(y)) => Ok(
            ValueView::Bool(lt_bits(y, x)),
        ),
        (ValueView::Float(x), TokenTypeView::GreaterThanOrEqualTo, ValueView::Float(y)) => Ok(
            ValueView::Bool(le_bits(y, x)),
        ),
        (ValueView::Float(x), TokenTypeView::EqualTo, ValueView::Float(y)) => Ok(
            ValueView::Bool(eq_bits(x, y)),
        ),
        (ValueView::Float(x), TokenTypeView::NotEqualTo, ValueView::Float(y)) => Ok(
            ValueView::Bool(!eq_bits(x, y)),
        ),
        (ValueView::Text(s), TokenTypeView::Add, ValueView::Text(t)) => Ok(
            ValueView::Text(s + t),
        ),
        _ => Err(fail_at(op, ErrorType::MismatchedType)),
    }
}

/// A whole tree evaluated bottom-up, left child first, failing fast.
pub open spec fn spec_eval(e: ExprView) -> Result<ValueView, ErrorView>
    decreases e,
{
    match e {
        ExprView::Literal(v) => Ok(v),
        ExprView::Unary(op, right) => match spec_eval(*right) {
            Err(er) => Err(er),
            Ok(rv) => spec_eval_unary(op, rv),
        },
        ExprView::Binary(left, op, right) => match spec_eval(*left) {
            Err(er) => Err(er),
            Ok(lv) => match spec_eval(*right) {
                Err(er) => Err(er),
                Ok(rv) => spec_eval_binary(lv, op, rv),
            },
        },
    }
}

fn eval_unary(op: &Token, v: Value) -> (r: Result<Value, Error>)
    ensures
        eval_res_view(r) == spec_eval_unary(op@, v@),
{
    match (&op.token_type, v) {
        (TokenType::Subtract, Value::Int(i)) => if i == i64::MIN {
            Err(Error { position: op.position, error_type: ErrorType::IntegerOverflow })
        } else {
            Ok(Value::Int(-i))
        },
        (TokenType::Subtract, Value::Float(bits)) => Ok(
            Value::Float(crate::float_bits::float_neg(bits)),
        ),
        (TokenType::LogicalNot, Value::Bool(b)) => Ok(Value::Bool(!b)),
        _ => Err(Error { position: op.position, error_type: ErrorType::MismatchedType }),
    }
}

fn eval_binary(left: Value, op: &Token, right: Value) -> (r: Result<Value, Error>)
    ensures
        eval_res_view(r) == spec_eval_binary(left@, op@, right@),
{
    match (left, &op.token_type, right) {
        (Value::Int(a), TokenType::Add, Value::Int(b)) => match a.checked_add(b) {
            Some(v) => Ok(Value::Int(v)),
            None => Err(Error { position: op.position, error_type: ErrorType::IntegerOverflow }),
        },
        (Value::Int(a), TokenType::Subtract, Value::Int(b)) => match a.checked_sub(b) {
            Some(v) => Ok(Value::Int(v)),
            None => Err(Error { position: op.position, error_type: ErrorType::IntegerOverflow }),
        },
        (Value::Int(a), TokenType::Multiply, Value::Int(b)) => match a.checked_mul(b) {
            Some(v) => Ok(Value::Int(v)),
            None => Err(Error { position: op.position, error_type: ErrorType::IntegerOverflow }),
        },
        (Value::Int(a), TokenType::Divide, Value::Int(b)) => if b == 0 {
            Err(Error { position: op.position, error_type: ErrorType::DivisionByZero })
        } else {
            match a.checked_div(b) {
                Some(q) => Ok(Value::Int(q)),
                None => Err(Error {
                    position: op.position,
                    error_type: ErrorType::IntegerOverflow,
                }),
            }
        },
        (Value::Int(a), TokenType::LessThan, Value::Int(b)) => Ok(Value::Bool(a < b)),
        (Value::Int(a), TokenType::LessThanOrEqualTo, Value::Int(b)) => Ok(Value::Bool(a <= b)),
        (Value::Int(a), TokenType::GreaterThan, Value::Int(b)) => Ok(Value::Bool(a > b)),
        (Value::Int(a), TokenType::GreaterThanOrEqualTo, Value::Int(b)) => Ok(
            Value::Bool(a >= b),
        ),
        (Value::Int(a), TokenType::EqualTo, Value::Int(b)) => Ok(Value::Bool(a == b)),
        (Value::Int(a), TokenType::NotEqualTo, Value::Int(b)) => Ok(Value::Bool(a != b)),
        (Value::Float(x), TokenType::Add, Value::Float(y)) => Ok(
            Value::Float(crate::float_bits::float_add(x, y)),
        ),
        (Value::Float(x), TokenType::Subtract, Value::Float(y)) => Ok(
            Value::Float(crate::float_bits::float_sub(x, y)),
        ),
        (Value::Float(x), TokenType::Multiply, Value::Float(y)) => Ok(
            Value::Float(crate::float_bits::float_mul(x, y)),
        ),
        (Value::Float(x), TokenType::Divide, Value::Float(y)) => Ok(
            Value::Float(crate::float_bits::float_div(x, y)),
        ),
        (Value::Float(x), TokenType::LessThan, Value::Float(y)) => Ok(
            Value::Bool(crate::float_bits::float_lt(x, y)),
        ),
        (Value::Float(x), TokenType::LessThanOrEqualTo, Value::Float(y)) => Ok(
            Value::Bool(crate::float_bits::float_le(x, y)),
        ),
        (Value::Float(x), TokenType::GreaterThan, Value::Float(y)) => Ok(
            Value::Bool(crate::float_bits::float_lt(y, x)),
        ),
        (Value::Float(x), TokenType::GreaterThanOrEqualTo, Value::Float(y)) => Ok(
            Value::Bool(crate::float_bits::float_le(y, x)),
        ),
        (Value::Float(x), TokenType::EqualTo, Value::Float(y)) => Ok(
            Value::Bool(crate::float_bits::float_eq(x, y)),
        ),
        (Value::Float(x), TokenType::NotEqualTo, Value::Float(y)) => Ok(
            Value::Bool(!crate::float_bits::float_eq(x, y)),
        ),
        (Value::String(a), TokenType::Add, Value::String(b)) => {
            let mut s = a;
            s.append(b.as_str());
            Ok(Value::String(s))
        },
        _ => Err(Error { position: op.position, error_type: ErrorType::MismatchedType }),
    }
}

/// Evaluates a whole tree: returns exactly what the model `spec_eval` says
/// of it, a value or the first failure in evaluation order.
pub fn evaluate(expr: ExprType) -> (r: Result<Value, Error>)
    ensures
        eval_res_view(r) == spec_eval(expr@),
    decreases expr,
{
    match expr {
        ExprType::Literal(value) => Ok(value),
        ExprType::Unary(operator, right) => {
            let right_value = match evaluate(*right) {
                Err(e) => {
                    return Err(e);
                },
                Ok(v) => v,
            };
            eval_unary(&operator, right_value)
        },
        ExprType::Binary(left, operator, right) => {
            let left_value = match evaluate(*left) {
                Err(e) => {
                    return Err(e);
                },
                Ok(v) => v,
            };
            let right_value = match evaluate(*right) {
                Err(e) => {
                    return Err(e);
                },
                Ok(v) => v,
            };
            eval_binary(left_value, &operator, right_value)
        },
    }
}

} // verus!
