//! The parser: tokens in, an expression tree out.
//!
//! A `Parser` holds the scanned token sequence (ending with the `Eof`
//! sentinel) and a cursor that only moves forward.  Each precedence level
//! parses its left operand one level higher, then folds trailing
//! `<operator, right operand>` pairs in from the left, which makes every
//! binary operator left-associative.  The mathematical model is
//! `spec_expression` and its levels; `parse` is proved to build exactly the
//! tree the model says, or fail with exactly its positioned error.

use vstd::prelude::*;
use crate::{Position, Value, ValueView};
use crate::scanner::{Token, TokenType, TokenView, TokenTypeView, tokens_view};

verus! {

// ---------------------------------------------------------------------
// Expression trees
// ---------------------------------------------------------------------

/// An expression: a literal leaf, a prefix operator over one operand, or a
/// binary operator over two; each child is owned exclusively by its parent.
#[derive(Debug, PartialEq)]
pub enum ExprType {
    Literal(Value),
    Unary(Token, Box<ExprType>),
    Binary(Box<ExprType>, Token, Box<ExprType>),
}

/// The mathematical shape of an expression tree.
pub enum ExprView {
    Literal(ValueView),
    Unary(TokenView, Box<ExprView>),
    Binary(Box<ExprView>, TokenView, Box<ExprView>),
}

/// The shape of an expression tree, leaf values and operator tokens viewed.
pub open spec fn expr_view(e: ExprType) -> ExprView
    decreases e,
{
    match e {
        ExprType::Literal(v) => ExprView::Literal(v@),
        ExprType::Unary(op, right) => ExprView::Unary(op@, Box::new(expr_view(*right))),
        ExprType::Binary(left, op, right) => ExprView::Binary(
            Box::new(expr_view(*left)),
            op@,
            Box::new(expr_view(*right)),
        ),
    }
}

impl View for ExprType {
    type V = ExprView;

    open spec fn view(&self) -> ExprView {
        expr_view(*self)
    }
}

// ---------------------------------------------------------------------
// Parse errors
// ---------------------------------------------------------------------

/// What went wrong while parsing, at the token that triggered it.
#[derive(Debug)]
pub enum ErrorType {
    UnexpectedToken(Token),
    ExpectedRightParen,
}

/// A parse failure, positioned at the offending token.
#[derive(Debug)]
pub struct Error {
    pub position: Position,
    pub error_type: ErrorType,
}

impl Error {
    pub fn new(position: Position, error_type: ErrorType) -> (e: Self)
        ensures
            e.position == position,
            e.error_type == error_type,
    {
        Self { position, error_type }
    }
}

/// The mathematical shape of a parse failure kind.
pub enum ErrorTypeView {
    UnexpectedToken(TokenView),
    ExpectedRightParen,
}

/// The mathematical shape of a parse failure.
pub struct ErrorView {
    pub line: int,
    pub col: int,
    pub error_type: ErrorTypeView,
}

impl View for ErrorType {
    type V = ErrorTypeView;

    open spec fn view(&self) -> ErrorTypeView {
        match self {
            ErrorType::UnexpectedToken(t) => ErrorTypeView::UnexpectedToken(t@),
            ErrorType::ExpectedRightParen => ErrorTypeView::ExpectedRightParen,
        }
    }
}

impl View for Error {
    type V = ErrorView;

    open spec fn view(&self) -> ErrorView {
        ErrorView {
            line: self.position.line as int,
            col: self.position.column as int,
            error_type: self.error_type@,
        }
    }
}

/// A tree-or-error result, seen mathematically.
pub open spec fn expr_res_view(r: Result<ExprType, Error>) -> Result<ExprView, ErrorView> {
    match r {
        Ok(e) => Ok(e@),
        Err(e) => Err(e@),
    }
}

// ---------------------------------------------------------------------
// The grammar, mathematically
// ---------------------------------------------------------------------

/// Where a parse level ended and what it produced.
pub struct ParseStep {
    pub res: Result<ExprView, ErrorView>,
    pub j: int,
}

/// The operators of the equality level.
pub open spec fn is_equality_op(t: TokenTypeView) -> bool {
    t is EqualTo || t is NotEqualTo
}

/// The operators of the comparison level.
pub open spec fn is_comparison_op(t: TokenTypeView) -> bool {
    t is LessThan || t is LessThanOrEqualTo || t is GreaterThan || t is GreaterThanOrEqualTo
}

/// The operators of the term level.
pub open spec fn is_term_op(t: TokenTypeView) -> bool {
    t is Subtract || t is Add
}

/// The operators of the factor level.
pub open spec fn is_factor_op(t: TokenTypeView) -> bool {
    t is Multiply || t is Divide
}

/// The prefix operators of the unary level.
pub open spec fn is_unary_op(t: TokenTypeView) -> bool {
    t is LogicalNot || t is LogicalAnd
}

/// A full expression: the lowest-precedence level.
///
/// Throughout these levels, a cursor that leaves the token sequence or
/// moves backwards is left unspecified (`arbitrary()`): every level only
/// ever returns a cursor at or after its own, within the sequence, as the
/// executable parser's contracts show, so those branches are never taken.
pub open spec fn spec_expression(ts: Seq<TokenView>, i: int) -> ParseStep
    decreases ts.len() - i, 12int,
{
    spec_equality(ts, i)
}

pub open spec fn spec_equality(ts: Seq<TokenView>, i: int) -> ParseStep
    decreases ts.len() - i, 11int,
{
    let left = spec_comparison(ts, i);
    match left.res {
        Err(e) => left,
        Ok(l) => if i <= left.j <= ts.len() {
            spec_equality_rest(ts, left.j, l)
        } else {
            arbitrary()
        },
    }
}

pub open spec fn spec_equality_rest(ts: Seq<TokenView>, j: int, acc: ExprView) -> ParseStep
    decreases ts.len() - j, 10int,
{
    if 0 <= j < ts.len() && is_equality_op(ts[j].token_type) {
        let op = ts[j];
        let right = spec_comparison(ts, j + 1);
        match right.res {
            Err(e) => right,
            Ok(r) => if j < right.j <= ts.len() {
                spec_equality_rest(ts, right.j, ExprView::Binary(Box::new(acc), op, Box::new(r)))
            } else {
                arbitrary()
            },
        }
    } else {
        ParseStep { res: Ok(acc), j }
    }
}

pub open spec fn spec_comparison(ts: Seq<TokenView>, i: int) -> ParseStep
    decreases ts.len() - i, 9int,
{
    let left = spec_term(ts, i);
    match left.res {
        Err(e) => left,
        Ok(l) => if i <= left.j <= ts.len() {
            spec_comparison_rest(ts, left.j, l)
        } else {
            arbitrary()
        },
    }
}

pub open spec fn spec_comparison_rest(ts: Seq<TokenView>, j: int, acc: ExprView) -> ParseStep
    decreases ts.len() - j, 8int,
{
    if 0 <= j < ts.len() && is_comparison_op(ts[j].token_type) {
        let op = ts[j];
        let right = spec_term(ts, j + 1);
        match right.res {
            Err(e) => right,
            Ok(r) => if j < right.j <= ts.len() {
                spec_comparison_rest(ts, right.j, ExprView::Binary(Box::new(acc), op, Box::new(r)))
            } else {
                arbitrary()
            },
        }
    } else {
        ParseStep { res: Ok(acc), j }
    }
}

pub open spec fn spec_term(ts: Seq<TokenView>, i: int) -> ParseStep
    decreases ts.len() - i, 7int,
{
    let left = spec_factor(ts, i);
    match left.res {
        Err(e) => left,
        Ok(l) => if i <= left.j <= ts.len() {
            spec_term_rest(ts, left.j, l)
        } else {
            arbitrary()
        },
    }
}

pub open spec fn spec_term_rest(ts: Seq<TokenView>, j: int, acc: ExprView) -> ParseStep
    decreases ts.len() - j, 6int,
{
    if 0 <= j < ts.len() && is_term_op(ts[j].token_type) {
        let op = ts[j];
        let right = spec_factor(ts, j + 1);
        match right.res {
            Err(e) => right,
            Ok(r) => if j < right.j <= ts.len() {
                spec_term_rest(ts, right.j, ExprView::Binary(Box::new(acc), op, Box::new(r)))
            } else {
                arbitrary()
            },
        }
    } else {
        ParseStep { res: Ok(acc), j }
    }
}

pub open spec fn spec_factor(ts: Seq<TokenView>, i: int) -> ParseStep
    decreases ts.len() - i, 5int,
{
    let left = spec_unary(ts, i);
    match left.res {
        Err(e) => left,
        Ok(l) => if i <= left.j <= ts.len() {
            spec_factor_rest(ts, left.j, l)
        } else {
            arbitrary()
        },
    }
}

pub open spec fn spec_factor_rest(ts: Seq<TokenView>, j: int, acc: ExprView) -> ParseStep
    decreases ts.len() - j, 4int,
{
    if 0 <= j < ts.len() && is_factor_op(ts[j].token_type) {
        let op = ts[j];
        let right = spec_unary(ts, j + 1);
        match right.res {
            Err(e) => right,
            Ok(r) => if j < right.j <= ts.len() {
                spec_factor_rest(ts, right.j, ExprView::Binary(Box::new(acc), op, Box::new(r)))
            } else {
                arbitrary()
            },
        }
    } else {
        ParseStep { res: Ok(acc), j }
    }
}

pub open spec fn spec_unary(ts: Seq<TokenView>, i: int) -> ParseStep
    decreases ts.len() - i, 3int,
{
    if 0 <= i < ts.len() && is_unary_op(ts[i].token_type) {
        let op = ts[i];
        let right = spec_unary(ts, i + 1);
        match right.res {
            Err(e) => right,
            Ok(r) => ParseStep { res: Ok(ExprView::Unary(op, Box::new(r))), j: right.j },
        }
    } else {
        spec_primary(ts, i)
    }
}

/// A primary expression: a literal leaf, or a parenthesised expression
/// whose closing parenthesis is owed at the position where it is missing;
/// any other token (the sentinel included) is an unexpected-token failure.
pub open spec fn spec_primary(ts: Seq<TokenView>, i: int) -> ParseStep
    decreases ts.len() - i, 2int,
{
    if 0 <= i < ts.len() {
        let t = ts[i];
        match t.token_type {
            TokenTypeView::Literal(v) => ParseStep { res: Ok(ExprView::Literal(v)), j: i + 1 },
            TokenTypeView::LeftParen => {
                let inner = spec_expression(ts, i + 1);
                match inner.res {
                    Err(e) => inner,
                    Ok(expr) => if inner.j < ts.len() && ts[inner.j].token_type is RightParen {
                        ParseStep { res: Ok(expr), j: inner.j + 1 }
                    } else if 0 <= inner.j < ts.len() {
                        ParseStep {
                            res: Err(ErrorView {
                                line: ts[inner.j].line,
                                col: ts[inner.j].col,
                                error_type: ErrorTypeView::ExpectedRightParen,
                            }),
                            j: inner.j,
                        }
                    } else {
                        arbitrary()
                    },
                }
            },
            _ => ParseStep {
                res: Err(ErrorView {
                    line: t.line,
                    col: t.col,
                    error_type: ErrorTypeView::UnexpectedToken(t),
                }),
                j: i,
            },
        }
    } else {
        arbitrary()
    }
}

} // verus!

verus! {

// ---------------------------------------------------------------------
// The parser
// ---------------------------------------------------------------------

/// Holds the token sequence and a forward-only cursor into it.
pub struct Parser {
    pub tokens: Vec<Token>,
    pub index: usize,
}

impl Parser {
    /// What every operation relies on and preserves: the sequence ends with
    /// the `Eof` sentinel, and the cursor never passes it.
    pub open spec fn wf(&self) -> bool {
        &&& self.tokens@.len() >= 1
        &&& self.index < self.tokens@.len()
        &&& self.tokens@[self.tokens@.len() - 1]@.token_type is Eof
    }

    /// The token sequence seen mathematically.
    pub open spec fn toks(&self) -> Seq<TokenView> {
        tokens_view(self.tokens@)
    }

    pub fn new(tokens: Vec<Token>) -> (p: Parser)
        requires
            tokens@.len() >= 1,
            tokens@[tokens@.len() - 1]@.token_type is Eof,
        ensures
            p.wf(),
            p.tokens == tokens,
            p.index == 0usize,
    {
        Self { tokens, index: 0 }
    }

    /// Parses one full expression; the cursor ends exactly where the model
    /// `spec_expression` says, on the tree and on every failure alike.
    pub fn parse(&mut self) -> (r: Result<ExprType, Error>)
        requires
            old(self).wf(),
        ensures
            final(self).wf(),
            final(self).tokens == old(self).tokens,
            ({
                let step = spec_expression(old(self).toks(), old(self).index as int);
                final(self).index == step.j && expr_res_view(r) == step.res
            }),
    {
        self.expression()
    }

    fn at_equality_op(&self) -> (r: bool)
        requires
            self.wf(),
        ensures
            r == is_equality_op(self.toks()[self.index as int].token_type),
    {
        match &self.tokens[self.index].token_type {
            TokenType::EqualTo | TokenType::NotEqualTo => true,
            _ => false,
        }
    }

    fn at_comparison_op(&self) -> (r: bool)
        requires
            self.wf(),
        ensures
            r == is_comparison_op(self.toks()[self.index as int].token_type),
    {
        match &self.tokens[self.index].token_type {
            TokenType::LessThan
            | TokenType::LessThanOrEqualTo
            | TokenType::GreaterThan
            | TokenType::GreaterThanOrEqualTo => true,
            _ => false,
        }
    }

    fn at_term_op(&self) -> (r: bool)
        requires
            self.wf(),
        ensures
            r == is_term_op(self.toks()[self.index as int].token_type),
    {
        match &self.tokens[self.index].token_type {
            TokenType::Subtract | TokenType::Add => true,
            _ => false,
        }
    }

    fn at_factor_op(&self) -> (r: bool)
        requires
            self.wf(),
        ensures
            r == is_factor_op(self.toks()[self.index as int].token_type),
    {
        match &self.tokens[self.index].token_type {
            TokenType::Multiply | TokenType::Divide => true,
            _ => false,
        }
    }

    fn at_unary_op(&self) -> (r: bool)
        requires
            self.wf(),
        ensures
            r == is_unary_op(self.toks()[self.index as int].token_type),
    {
        match &self.tokens[self.index].token_type {
            TokenType::LogicalNot | TokenType::LogicalAnd => true,
            _ => false,
        }
    }

    fn at_right_paren(&self) -> (r: bool)
        requires
            self.wf(),
        ensures
            r == (self.toks()[self.index as int].token_type is RightParen),
    {
        match &self.tokens[self.index].token_type {
            TokenType::RightParen => true,
            _ => false,
        }
    }

    fn expression(&mut self) -> (r: Result<ExprType, Error>)
        requires
            old(self).wf(),
        ensures
            final(self).wf(),
            final(self).tokens == old(self).tokens,
            final(self).index >= old(self).index,
            ({
                let step = spec_expression(old(self).toks(), old(self).index as int);
                final(self).index == step.j && expr_res_view(r) == step.res
            }),
        decreases self.tokens@.len() - self.index, 12int,
    {
        self.equality()
    }

    #[verifier::rlimit(100)]
    fn equality(&mut self) -> (r: Result<ExprType, Error>)
        requires
            old(self).wf(),
        ensures
            final(self).wf(),
            final(self).tokens == old(self).tokens,
            final(self).index >= old(self).index,
            ({
                let step = spec_equality(old(self).toks(), old(self).index as int);
                final(self).index == step.j && expr_res_view(r) == step.res
            }),
        decreases self.tokens@.len() - self.index, 11int,
    {
        let left = self.comparison();
        let mut expr = match left {
            Err(e) => {
                return Err(e);
            },
            Ok(x) => x,
        };
        while self.at_equality_op()
            invariant
                self.wf(),
                self.tokens == old(self).tokens,
                self.index >= old(self).index,
                spec_equality(old(self).toks(), old(self).index as int) == spec_equality_rest(
                    self.toks(),
                    self.index as int,
                    expr@,
                ),
            decreases self.tokens@.len() - self.index,
        {
            let n = self.tokens.len();
            proof {
                assert(self.toks()[n - 1] == self.tokens@[n - 1]@);
                assert(self.index != n - 1);
            }
            let op = self.tokens[self.index].clone();
            self.index = self.index + 1;
            let right = match self.comparison() {
                Err(e) => {
                    return Err(e);
                },
                Ok(x) => x,
            };
            expr = ExprType::Binary(Box::new(expr), op, Box::new(right));
        }
        Ok(expr)
    }

    #[verifier::rlimit(100)]
    fn comparison(&mut self) -> (r: Result<ExprType, Error>)
        requires
            old(self).wf(),
        ensures
            final(self).wf(),
            final(self).tokens == old(self).tokens,
            final(self).index >= old(self).index,
            ({
                let step = spec_comparison(old(self).toks(), old(self).index as int);
                final(self).index == step.j && expr_res_view(r) == step.res
            }),
        decreases self.tokens@.len() - self.index, 9int,
    {
        let left = self.term();
        let mut expr = match left {
            Err(e) => {
                return Err(e);
            },
            Ok(x) => x,
        };
        while self.at_comparison_op()
            invariant
                self.wf(),
                self.tokens == old(self).tokens,
                self.index >= old(self).index,
                spec_comparison(old(self).toks(), old(self).index as int) == spec_comparison_rest(
                    self.toks(),
                    self.index as int,
                    expr@,
                ),
            decreases self.tokens@.len() - self.index,
        {
            let n = self.tokens.len();
            proof {
                assert(self.toks()[n - 1] == self.tokens@[n - 1]@);
                assert(self.index != n - 1);
            }
            let op = self.tokens[self.index].clone();
            self.index = self.index + 1;
            let right = match self.term() {
                Err(e) => {
                    return Err(e);
                },
                Ok(x) => x,
            };
            expr = ExprType::Binary(Box::new(expr), op, Box::new(right));
        }
        Ok(expr)
    }

    #[verifier::rlimit(100)]
    fn term(&mut self) -> (r: Result<ExprType, Error>)
        requires
            old(self).wf(),
        ensures
            final(self).wf(),
            final(self).tokens == old(self).tokens,
            final(self).index >= old(self).index,
            ({
                let step = spec_term(old(self).toks(), old(self).index as int);
                final(self).index == step.j && expr_res_view(r) == step.res
            }),
        decreases self.tokens@.len() - self.index, 7int,
    {
        let left = self.factor();
        let mut expr = match left {
            Err(e) => {
                return Err(e);
            },
            Ok(x) => x,
        };
        while self.at_term_op()
            invariant
                self.wf(),
                self.tokens == old(self).tokens,
                self.index >= old(self).index,
                spec_term(old(self).toks(), old(self).index as int) == spec_term_rest(
                    self.toks(),
                    self.index as int,
                    expr@,
                ),
            decreases self.tokens@.len() - self.index,
        {
            let n = self.tokens.len();
            proof {
                assert(self.toks()[n - 1] == self.tokens@[n - 1]@);
                assert(self.index != n - 1);
            }
            let op = self.tokens[self.index].clone();
            self.index = self.index + 1;
            let right = match self.factor() {
                Err(e) => {
                    return Err(e);
                },
                Ok(x) => x,
            };
            expr = ExprType::Binary(Box::new(expr), op, Box::new(right));
        }
        Ok(expr)
    }

    #[verifier::rlimit(100)]
    fn factor(&mut self) -> (r: Result<ExprType, Error>)
        requires
            old(self).wf(),
        ensures
            final(self).wf(),
            final(self).tokens == old(self).tokens,
            final(self).index >= old(self).index,
            ({
                let step = spec_factor(old(self).toks(), old(self).index as int);
                final(self).index == step.j && expr_res_view(r) == step.res
            }),
        decreases self.tokens@.len() - self.index, 5int,
    {
        let left = self.unary();
        let mut expr = match left {
            Err(e) => {
                return Err(e);
            },
            Ok(x) => x,
        };
        while self.at_factor_op()
            invariant
                self.wf(),
                self.tokens == old(self).tokens,
                self.index >= old(self).index,
                spec_factor(old(self).toks(), old(self).index as int) == spec_factor_rest(
                    self.toks(),
                    self.index as int,
                    expr@,
                ),
            decreases self.tokens@.len() - self.index,
        {
            let n = self.tokens.len();
            proof {
                assert(self.toks()[n - 1] == self.tokens@[n - 1]@);
                assert(self.index != n - 1);
            }
            let op = self.tokens[self.index].clone();
            self.index = self.index + 1;
            let right = match self.unary() {
                Err(e) => {
                    return Err(e);
                },
                Ok(x) => x,
            };
            expr = ExprType::Binary(Box::new(expr), op, Box::new(right));
        }
        Ok(expr)
    }

    fn unary(&mut self) -> (r: Result<ExprType, Error>)
        requires
            old(self).wf(),
        ensures
            final(self).wf(),
            final(self).tokens == old(self).tokens,
            final(self).index >= old(self).index,
            ({
                let step = spec_unary(old(self).toks(), old(self).index as int);
                final(self).index == step.j && expr_res_view(r) == step.res
            }),
        decreases self.tokens@.len() - self.index, 3int,
    {
        if self.at_unary_op() {
            let n = self.tokens.len();
            proof {
                assert(self.toks()[n - 1] == self.tokens@[n - 1]@);
                assert(self.index != n - 1);
            }
            let op = self.tokens[self.index].clone();
            self.index = self.index + 1;
            match self.unary() {
                Err(e) => Err(e),
                Ok(right) => Ok(ExprType::Unary(op, Box::new(right))),
            }
        } else {
            self.primary()
        }
    }

    fn primary(&mut self) -> (r: Result<ExprType, Error>)
        requires
            old(self).wf(),
        ensures
            final(self).wf(),
            final(self).tokens == old(self).tokens,
            final(self).index >= old(self).index,
            ({
                let step = spec_primary(old(self).toks(), old(self).index as int);
                final(self).index == step.j && expr_res_view(r) == step.res
            }),
        decreases self.tokens@.len() - self.index, 2int,
    {
        let n = self.tokens.len();
        let t = self.tokens[self.index].clone();
        proof {
            assert(self.toks()[n - 1] == self.tokens@[n - 1]@);
        }
        match t.token_type {
            TokenType::Literal(value) => {
                self.index = self.index + 1;
                Ok(ExprType::Literal(value))
            },
            TokenType::LeftParen => {
                self.index = self.index + 1;
                let inner = match self.expression() {
                    Err(e) => {
                        return Err(e);
                    },
                    Ok(x) => x,
                };
                if self.at_right_paren() {
                    self.index = self.index + 1;
                    Ok(inner)
                } else {
                    Err(Error {
                        position: self.tokens[self.index].position,
                        error_type: ErrorType::ExpectedRightParen,
                    })
                }
            },
            _ => Err(Error { position: t.position, error_type: ErrorType::UnexpectedToken(t) }),
        }
    }
}

} // verus!
