//! The scanner: characters in, position-tagged tokens out.
//!
//! A `Scanner` owns the source text and a cursor (index, line, column).  Each
//! call of `scan_token` skips blank characters (space, tab, carriage return,
//! form feed -- a newline is not blank, it becomes a `LineBreak` token),
//! then returns exactly one token, the `Eof` sentinel, or a positioned
//! error.  The mathematical model is `spec_scan_token`, a pure function of
//! the character sequence and the cursor; `scan_token` is proved to return
//! and advance exactly as the model says.

use vstd::prelude::*;
use crate::{Position, Value, ValueView};

verus! {

// ---------------------------------------------------------------------
// Tokens
// ---------------------------------------------------------------------

/// A classified lexeme: a literal, an identifier, a keyword, an operator or
/// a structural mark.
#[derive(Debug, PartialEq)]
pub enum TokenType {
    Literal(Value),

    Identifier(String),

    Assign,
    Constant,

    Add,
    Subtract,
    Multiply,
    Divide,
    IntDivide,
    Modulus,

    LessThan,
    GreaterThan,
    EqualTo,
    NotEqualTo,
    LessThanOrEqualTo,
    GreaterThanOrEqualTo,

    LogicalAnd,
    LogicalOr,
    LogicalNot,

    Repeat,
    Until,
    While,
    EndWhile,

    For,
    To,
    In,
    EndFor,

    If,
    Then,
    Else,
    EndIf,

    Output,

    LineBreak,
    Eof,

    LeftParen,
    RightParen,
}

/// The mathematical shape of a `TokenType`: string payloads become
/// character sequences.
pub enum TokenTypeView {
    Literal(ValueView),
    Identifier(Seq<char>),
    Assign,
    Constant,
    Add,
    Subtract,
    Multiply,
    Divide,
    IntDivide,
    Modulus,
    LessThan,
    GreaterThan,
    EqualTo,
    NotEqualTo,
    LessThanOrEqualTo,
    GreaterThanOrEqualTo,
    LogicalAnd,
    LogicalOr,
    LogicalNot,
    Repeat,
    Until,
    While,
    EndWhile,
    For,
    To,
    In,
    EndFor,
    If,
    Then,
    Else,
    EndIf,
    Output,
    LineBreak,
    Eof,
    LeftParen,
    RightParen,
}

impl View for TokenType {
    type V = TokenTypeView;

    open spec fn view(&self) -> TokenTypeView {
        match self {
            TokenType::Literal(v) => TokenTypeView::Literal(v@),
            TokenType::Identifier(s) => TokenTypeView::Identifier(s@),
            TokenType::Assign => TokenTypeView::Assign,
            TokenType::Constant => TokenTypeView::Constant,
            TokenType::Add => TokenTypeView::Add,
            TokenType::Subtract => TokenTypeView::Subtract,
            TokenType::Multiply => TokenTypeView::Multiply,
            TokenType::Divide => TokenTypeView::Divide,
            TokenType::IntDivide => TokenTypeView::IntDivide,
            TokenType::Modulus => TokenTypeView::Modulus,
            TokenType::LessThan => TokenTypeView::LessThan,
            TokenType::GreaterThan => TokenTypeView::GreaterThan,
            TokenType::EqualTo => TokenTypeView::EqualTo,
            TokenType::NotEqualTo => TokenTypeView::NotEqualTo,
            TokenType::LessThanOrEqualTo => TokenTypeView::LessThanOrEqualTo,
            TokenType::GreaterThanOrEqualTo => TokenTypeView::GreaterThanOrEqualTo,
            TokenType::LogicalAnd => TokenTypeView::LogicalAnd,
            TokenType::LogicalOr => TokenTypeView::LogicalOr,
            TokenType::LogicalNot => TokenTypeView::LogicalNot,
            TokenType::Repeat => TokenTypeView::Repeat,
            TokenType::Until => TokenTypeView::Until,
            TokenType::While => TokenTypeView::While,
            TokenType::EndWhile => TokenTypeView::EndWhile,
            TokenType::For => TokenTypeView::For,
            TokenType::To => TokenTypeView::To,
            TokenType::In => TokenTypeView::In,
            TokenType::EndFor => TokenTypeView::EndFor,
            TokenType::If => TokenTypeView::If,
            TokenType::Then => TokenTypeView::Then,
            TokenType::Else => TokenTypeView::Else,
            TokenType::EndIf => TokenTypeView::EndIf,
            TokenType::Output => TokenTypeView::Output,
            TokenType::LineBreak => TokenTypeView::LineBreak,
            TokenType::Eof => TokenTypeView::Eof,
            TokenType::LeftParen => TokenTypeView::LeftParen,
            TokenType::RightParen => TokenTypeView::RightParen,
        }
    }
}

impl Clone for TokenType {
    fn clone(&self) -> (r: Self)
        ensures
            r@ == self@,
    {
        match self {
            TokenType::Literal(v) => TokenType::Literal(v.clone()),
            TokenType::Identifier(s) => TokenType::Identifier(s.clone()),
            TokenType::Assign => TokenType::Assign,
            TokenType::Constant => TokenType::Constant,
            TokenType::Add => TokenType::Add,
            TokenType::Subtract => TokenType::Subtract,
            TokenType::Multiply => TokenType::Multiply,
            TokenType::Divide => TokenType::Divide,
            TokenType::IntDivide => TokenType::IntDivide,
            TokenType::Modulus => TokenType::Modulus,
            TokenType::LessThan => TokenType::LessThan,
            TokenType::GreaterThan => TokenType::GreaterThan,
            TokenType::EqualTo => TokenType::EqualTo,
            TokenType::NotEqualTo => TokenType::NotEqualTo,
            TokenType::LessThanOrEqualTo => TokenType::LessThanOrEqualTo,
            TokenType::GreaterThanOrEqualTo => TokenType::GreaterThanOrEqualTo,
            TokenType::LogicalAnd => TokenType::LogicalAnd,
            TokenType::LogicalOr => TokenType::LogicalOr,
            TokenType::LogicalNot => TokenType::LogicalNot,
            TokenType::Repeat => TokenType::Repeat,
            TokenType::Until => TokenType::Until,
            TokenType::While => TokenType::While,
            TokenType::EndWhile => TokenType::EndWhile,
            TokenType::For => TokenType::For,
            TokenType::To => TokenType::To,
            TokenType::In => TokenType::In,
            TokenType::EndFor => TokenType::EndFor,
            TokenType::If => TokenType::If,
            TokenType::Then => TokenType::Then,
            TokenType::Else => TokenType::Else,
            TokenType::EndIf => TokenType::EndIf,
            TokenType::Output => TokenType::Output,
            TokenType::LineBreak => TokenType::LineBreak,
            TokenType::Eof => TokenType::Eof,
            TokenType::LeftParen => TokenType::LeftParen,
            TokenType::RightParen => TokenType::RightParen,
        }
    }
}

/// A classified lexeme together with the position of its first character.
#[derive(Debug, PartialEq)]
pub struct Token {
    pub token_type: TokenType,
    pub position: Position,
}

/// The mathematical shape of a `Token`; positions widen to unbounded
/// integers.
pub struct TokenView {
    pub token_type: TokenTypeView,
    pub line: int,
    pub col: int,
}

impl View for Token {
    type V = TokenView;

    open spec fn view(&self) -> TokenView {
        TokenView {
            token_type: self.token_type@,
            line: self.position.line as int,
            col: self.position.column as int,
        }
    }
}

impl Clone for Token {
    fn clone(&self) -> (r: Self)
        ensures
            r@ == self@,
    {
        Token { token_type: self.token_type.clone(), position: self.position }
    }
}

impl Token {
    /// Whether this token is the end-of-input sentinel.
    pub fn is_eof(&self) -> (r: bool)
        ensures
            r == (self@.token_type is Eof),
    {
        match self.token_type {
            TokenType::Eof => true,
            _ => false,
        }
    }
}

// ---------------------------------------------------------------------
// Scan errors
// ---------------------------------------------------------------------

/// What went wrong while scanning one lexeme.
#[derive(Clone, Copy, Debug, PartialEq, Eq, Structural)]
pub enum ErrorType {
    UnexpectedEOF,
    UnexpectedChar(char),
    FailedToParseFloat,
    FailedToParseInt,
}

/// A scan failure, positioned at the character that triggered it, or at the
/// start of the offending lexeme for a failure of a whole multi-character
/// lexeme.
#[derive(Clone, Copy, Debug, PartialEq, Eq, Structural)]
pub struct Error {
    pub line: usize,
    pub column: usize,
    pub error_type: ErrorType,
}

/// The mathematical shape of a scan failure.
pub struct ErrorView {
    pub line: int,
    pub col: int,
    pub error_type: ErrorType,
}

impl View for Error {
    type V = ErrorView;

    open spec fn view(&self) -> ErrorView {
        ErrorView {
            line: self.line as int,
            col: self.column as int,
            error_type: self.error_type,
        }
    }
}

// ---------------------------------------------------------------------
// Character classes
// ---------------------------------------------------------------------

/// The characters skipped between tokens: ASCII blanks other than newline.
pub open spec fn is_space_char(c: char) -> bool {
    c == ' ' || c == '\t' || c == '\r' || c == '\x0c'
}

/// ASCII decimal digits.
pub open spec fn is_digit_char(c: char) -> bool {
    48 <= c as u32 && c as u32 <= 57
}

/// ASCII letters; a word (keyword or identifier) begins with one.
pub open spec fn is_alpha_char(c: char) -> bool {
    (65 <= c as u32 && c as u32 <= 90) || (97 <= c as u32 && c as u32 <= 122)
}

/// ASCII letters and digits; a word continues through these.
pub open spec fn is_alnum_char(c: char) -> bool {
    is_alpha_char(c) || is_digit_char(c)
}

/// The numeric value of an ASCII digit.
pub open spec fn digit_val(c: char) -> nat {
    (c as u32 - 48) as nat
}

fn is_space(c: char) -> (r: bool)
    ensures
        r == is_space_char(c),
{
    c == ' ' || c == '\t' || c == '\r' || c == '\x0c'
}

fn is_digit(c: char) -> (r: bool)
    ensures
        r == is_digit_char(c),
{
    let u = c as u32;
    48 <= u && u <= 57
}

fn is_alpha(c: char) -> (r: bool)
    ensures
        r == is_alpha_char(c),
{
    let u = c as u32;
    (65 <= u && u <= 90) || (97 <= u && u <= 122)
}

fn is_alnum(c: char) -> (r: bool)
    ensures
        r == is_alnum_char(c),
{
    is_alpha(c) || is_digit(c)
}

// ---------------------------------------------------------------------
// The cursor model
// ---------------------------------------------------------------------

/// The scanner's cursor: the next character's index, and the 1-based line
/// and column of that character.
pub struct ScanState {
    pub i: int,
    pub line: int,
    pub col: int,
}

/// The cursor after consuming one character: a newline starts the next
/// line, anything else moves one column right.
pub open spec fn advance(s: Seq<char>, st: ScanState) -> ScanState {
    if st.i < s.len() {
        if s[st.i] == '\n' {
            ScanState { i: st.i + 1, line: st.line + 1, col: 1 }
        } else {
            ScanState { i: st.i + 1, line: st.line, col: st.col + 1 }
        }
    } else {
        st
    }
}

/// The cursor after skipping every blank character under it.
pub open spec fn skip_ws(s: Seq<char>, st: ScanState) -> ScanState
    decreases s.len() - st.i,
{
    if st.i < s.len() && is_space_char(s[st.i]) {
        skip_ws(s, advance(s, st))
    } else {
        st
    }
}

// ---------------------------------------------------------------------
// The scanner
// ---------------------------------------------------------------------

/// Owns the source text and the cursor over it.
pub struct Scanner {
    pub contents: String,
    pub index: usize,
    pub line: usize,
    pub column: usize,
}

impl Scanner {
    /// The cursor bounds that every operation preserves: the index stays
    /// within the text, and line and column (1-based) never outrun it.
    pub open spec fn wf(&self) -> bool {
        &&& self.index <= self.contents@.len()
        &&& 1 <= self.line <= self.index + 1
        &&& 1 <= self.column <= self.index + 1
        &&& self.contents@.len() < usize::MAX
    }

    /// The cursor as a mathematical state.
    pub open spec fn st(&self) -> ScanState {
        ScanState { i: self.index as int, line: self.line as int, col: self.column as int }
    }

    /// A scanner at the start of the text.  The bound on the text's length
    /// is a machine limit: it keeps the 1-based line and column counters
    /// inside `usize`.
    pub fn new(contents: String) -> (s: Self)
        requires
            contents@.len() < usize::MAX,
        ensures
            s.wf(),
            s.contents == contents,
            s.index == 0usize && s.line == 1usize && s.column == 1usize,
    {
        Self { index: 0, line: 1, column: 1, contents }
    }

    /// The character under the cursor, if any, without consuming it.
    fn peek(&self) -> (r: Option<char>)
        requires
            self.wf(),
        ensures
            r == (if self.index < self.contents@.len() {
                Some(self.contents@[self.index as int])
            } else {
                None::<char>
            }),
    {
        if self.index < self.contents.as_str().unicode_len() {
            Some(self.contents.as_str().get_char(self.index))
        } else {
            None
        }
    }

    /// Consumes one character, keeping line and column true to it.
    fn next(&mut self) -> (r: Option<char>)
        requires
            old(self).wf(),
        ensures
            final(self).wf(),
            final(self).contents == old(self).contents,
            final(self).st() == advance(old(self).contents@, old(self).st()),
            r == (if old(self).index < old(self).contents@.len() {
                Some(old(self).contents@[old(self).index as int])
            } else {
                None::<char>
            }),
    {
        if self.index < self.contents.as_str().unicode_len() {
            let c = self.contents.as_str().get_char(self.index);
            self.index = self.index + 1;
            if c == '\n' {
                self.line = self.line + 1;
                self.column = 1;
            } else {
                self.column = self.column + 1;
            }
            Some(c)
        } else {
            None
        }
    }

    /// Skips blanks; never consumes a newline.
    fn skip_whitespace(&mut self)
        requires
            old(self).wf(),
        ensures
            final(self).wf(),
            final(self).contents == old(self).contents,
            final(self).st() == skip_ws(old(self).contents@, old(self).st()),
            final(self).index >= old(self).index,
    {
        loop
            invariant
                self.wf(),
                self.contents == old(self).contents,
                self.index >= old(self).index,
                skip_ws(self.contents@, self.st()) == skip_ws(old(self).contents@, old(self).st()),
            ensures
                self.wf(),
                self.contents == old(self).contents,
                self.index >= old(self).index,
                self.st() == skip_ws(old(self).contents@, old(self).st()),
            decreases self.contents@.len() - self.index,
        {
            let p = self.peek();
            match p {
                Some(c) => {
                    if is_space(c) {
                        let _ = self.next();
                    } else {
                        break;
                    }
                },
                None => {
                    break;
                },
            }
        }
    }
}

} // verus!

verus! {

// ---------------------------------------------------------------------
// One scan step, mathematically
// ---------------------------------------------------------------------

/// What one call of `scan_token` does: where the cursor ends, and the token
/// or the positioned failure it produces.
pub struct ScanStep {
    pub st: ScanState,
    pub res: Result<TokenView, ErrorView>,
}

/// A token-or-error result, seen mathematically.
pub open spec fn token_res_view(r: Result<Token, Error>) -> Result<TokenView, ErrorView> {
    match r {
        Ok(t) => Ok(t@),
        Err(e) => Err(e@),
    }
}

/// The value of a run of ASCII digits read in base ten.
pub open spec fn dec_val(text: Seq<char>) -> nat
    decreases text.len(),
{
    if text.len() == 0 {
        0
    } else {
        dec_val(text.drop_last()) * 10 + digit_val(text.last())
    }
}

/// A digit run is worth at least any of its prefixes.
proof fn lemma_dec_val_prefix(text: Seq<char>, i: int)
    requires
        0 <= i <= text.len(),
    ensures
        dec_val(text.take(i)) <= dec_val(text),
    decreases text.len() - i,
{
    if i < text.len() {
        assert(text.take(i + 1).drop_last() =~= text.take(i));
        assert(text.take(i + 1).last() == text[i]);
        lemma_dec_val_prefix(text, i + 1);
    } else {
        assert(text.take(i) =~= text);
    }
}

/// Scanning a text literal after its opening quote: characters are copied
/// until an unescaped closing quote; a backslash escapes the next character,
/// where `n` becomes a newline and anything else is copied as it stands;
/// input ending first is a failure at the literal's start.
pub open spec fn spec_scan_text(
    s: Seq<char>,
    st: ScanState,
    acc: Seq<char>,
    escape: bool,
    start_line: int,
    start_col: int,
) -> ScanStep
    decreases s.len() - st.i,
{
    if st.i < 0 || st.i >= s.len() {
        ScanStep {
            st,
            res: Err(ErrorView {
                line: start_line,
                col: start_col,
                error_type: ErrorType::UnexpectedEOF,
            }),
        }
    } else {
        let c = s[st.i];
        let st1 = advance(s, st);
        if escape {
            if c == 'n' {
                spec_scan_text(s, st1, acc.push('\n'), false, start_line, start_col)
            } else {
                spec_scan_text(s, st1, acc.push(c), false, start_line, start_col)
            }
        } else if c == '\\' {
            spec_scan_text(s, st1, acc, true, start_line, start_col)
        } else if c == '\'' {
            ScanStep {
                st: st1,
                res: Ok(TokenView {
                    token_type: TokenTypeView::Literal(ValueView::Text(acc)),
                    line: start_line,
                    col: start_col,
                }),
            }
        } else {
            spec_scan_text(s, st1, acc.push(c), false, start_line, start_col)
        }
    }
}

/// Scanning the rest of a numeric literal: digits continue it, a dot turns
/// it floating-point, a letter is a failure at its own position, anything
/// else ends it unconsumed.
pub struct NumScan {
    pub st: ScanState,
    pub text: Seq<char>,
    pub is_float: bool,
    pub bad: Option<ErrorView>,
}

pub open spec fn spec_scan_number(
    s: Seq<char>,
    st: ScanState,
    acc: Seq<char>,
    is_float: bool,
) -> NumScan
    decreases s.len() - st.i,
{
    if st.i < 0 || st.i >= s.len() {
        NumScan { st, text: acc, is_float, bad: None }
    } else {
        let c = s[st.i];
        if is_digit_char(c) {
            spec_scan_number(s, advance(s, st), acc.push(c), is_float)
        } else if c == '.' {
            spec_scan_number(s, advance(s, st), acc.push(c), true)
        } else if is_alpha_char(c) {
            NumScan {
                st,
                text: acc,
                is_float,
                bad: Some(ErrorView {
                    line: st.line,
                    col: st.col,
                    error_type: ErrorType::UnexpectedChar(c),
                }),
            }
        } else {
            NumScan { st, text: acc, is_float, bad: None }
        }
    }
}

/// The token or failure a whole numeric literal yields: the digit run is
/// read as a 64-bit integer, or, when a dot occurred, the text is read as a
/// binary64 value; a value the type cannot hold is a failure at the
/// literal's start.
pub open spec fn spec_number_token(
    s: Seq<char>,
    st: ScanState,
    acc: Seq<char>,
    is_float: bool,
    start_line: int,
    start_col: int,
) -> ScanStep {
    let n = spec_scan_number(s, st, acc, is_float);
    match n.bad {
        Some(e) => ScanStep { st: n.st, res: Err(e) },
        None => if n.is_float {
            match crate::float_bits::float_of_text(n.text) {
                Some(bits) => ScanStep {
                    st: n.st,
                    res: Ok(TokenView {
                        token_type: TokenTypeView::Literal(ValueView::Float(bits)),
                        line: start_line,
                        col: start_col,
                    }),
                },
                None => ScanStep {
                    st: n.st,
                    res: Err(ErrorView {
                        line: start_line,
                        col: start_col,
                        error_type: ErrorType::FailedToParseFloat,
                    }),
                },
            }
        } else {
            if dec_val(n.text) <= i64::MAX {
                ScanStep {
                    st: n.st,
                    res: Ok(TokenView {
                        token_type: TokenTypeView::Literal(ValueView::Int(dec_val(n.text) as i64)),
                        line: start_line,
                        col: start_col,
                    }),
                }
            } else {
                ScanStep {
                    st: n.st,
                    res: Err(ErrorView {
                        line: start_line,
                        col: start_col,
                        error_type: ErrorType::FailedToParseInt,
                    }),
                }
            }
        },
    }
}

/// Scanning the rest of a word: letters and digits continue it; the first
/// other character ends it unconsumed.
pub struct WordScan {
    pub st: ScanState,
    pub text: Seq<char>,
}

pub open spec fn spec_scan_word(s: Seq<char>, st: ScanState, acc: Seq<char>) -> WordScan
    decreases s.len() - st.i,
{
    if 0 <= st.i < s.len() && is_alnum_char(s[st.i]) {
        spec_scan_word(s, advance(s, st), acc.push(s[st.i]))
    } else {
        WordScan { st, text: acc }
    }
}

/// A completed word resolved against the keyword table; `True` and `False`
/// become boolean literals, and anything unmatched is an identifier.
pub open spec fn resolve_word_view(w: Seq<char>) -> TokenTypeView {
    if w == "CONSTANT"@ {
        TokenTypeView::Constant
    } else if w == "DIV"@ {
        TokenTypeView::IntDivide
    } else if w == "MOD"@ {
        TokenTypeView::Modulus
    } else if w == "AND"@ {
        TokenTypeView::LogicalAnd
    } else if w == "OR"@ {
        TokenTypeView::LogicalOr
    } else if w == "NOT"@ {
        TokenTypeView::LogicalNot
    } else if w == "REPEAT"@ {
        TokenTypeView::Repeat
    } else if w == "UNTIL"@ {
        TokenTypeView::Until
    } else if w == "WHILE"@ {
        TokenTypeView::While
    } else if w == "ENDWHILE"@ {
        TokenTypeView::EndWhile
    } else if w == "FOR"@ {
        TokenTypeView::For
    } else if w == "TO"@ {
        TokenTypeView::To
    } else if w == "IN"@ {
        TokenTypeView::In
    } else if w == "ENDFOR"@ {
        TokenTypeView::EndFor
    } else if w == "IF"@ {
        TokenTypeView::If
    } else if w == "THEN"@ {
        TokenTypeView::Then
    } else if w == "ELSE"@ {
        TokenTypeView::Else
    } else if w == "ENDIF"@ {
        TokenTypeView::EndIf
    } else if w == "OUTPUT"@ {
        TokenTypeView::Output
    } else if w == "True"@ {
        TokenTypeView::Literal(ValueView::Bool(true))
    } else if w == "False"@ {
        TokenTypeView::Literal(ValueView::Bool(false))
    } else {
        TokenTypeView::Identifier(w)
    }
}

// ---------------------------------------------------------------------
// Executable helpers
// ---------------------------------------------------------------------

/// Relies on String's FromIterator impl over char: collecting characters
/// yields the string of exactly those characters, in order.
#[verifier::external_body]
pub(crate) fn chars_to_string(text: &Vec<char>) -> (r: String)
    ensures
        r@ == text@,
{
    text.iter().collect()
}

/// Whether the collected word equals a keyword, character by character.
fn word_eq(w: &Vec<char>, s: &str) -> (r: bool)
    ensures
        r == (w@ == s@),
{
    let n = s.unicode_len();
    if w.len() != n {
        return false;
    }
    let mut k: usize = 0;
    while k < n
        invariant
            n == s@.len(),
            n == w@.len(),
            k <= n,
            forall|j: int| 0 <= j < k ==> w@[j] == s@[j],
        decreases n - k,
    {
        let a = w[k];
        let b = s.get_char(k);
        if a != b {
            return false;
        }
        k = k + 1;
    }
    proof {
        assert(w@ =~= s@);
    }
    true
}

/// Reads a run of ASCII digits as a 64-bit signed integer; None when the
/// value does not fit.
fn parse_int_digits(text: &Vec<char>) -> (r: Option<i64>)
    requires
        forall|k: int| 0 <= k < text@.len() ==> is_digit_char(#[trigger] text@[k]),
    ensures
        r == (if dec_val(text@) <= i64::MAX {
            Some(dec_val(text@) as i64)
        } else {
            None::<i64>
        }),
{
    let n = text.len();
    let mut val: u64 = 0;
    let mut k: usize = 0;
    while k < n
        invariant
            n == text@.len(),
            k <= n,
            forall|j: int| 0 <= j < text@.len() ==> is_digit_char(#[trigger] text@[j]),
            val == dec_val(text@.take(k as int)),
            val <= i64::MAX as u64,
        decreases n - k,
    {
        let c = text[k];
        assert(is_digit_char(text@[k as int]));
        let d: u64 = (c as u32 - 48) as u64;
        proof {
            assert(text@.take(k as int + 1).drop_last() =~= text@.take(k as int));
            assert(text@.take(k as int + 1).last() == text@[k as int]);
        }
        let v10 = match val.checked_mul(10) {
            Some(v) => v,
            None => {
                proof {
                    lemma_dec_val_prefix(text@, k as int + 1);
                }
                return None;
            },
        };
        let v = match v10.checked_add(d) {
            Some(v) => v,
            None => {
                proof {
                    lemma_dec_val_prefix(text@, k as int + 1);
                }
                return None;
            },
        };
        if v > i64::MAX as u64 {
            proof {
                lemma_dec_val_prefix(text@, k as int + 1);
            }
            return None;
        }
        val = v;
        k = k + 1;
    }
    proof {
        assert(text@.take(n as int) =~= text@);
    }
    Some(val as i64)
}

} // verus!

verus! {

impl Scanner {
    /// Scans a text literal, the opening quote already consumed;
    /// `start_line`/`start_col` name the quote's position.
    fn scan_text(&mut self, start_line: usize, start_col: usize) -> (r: Result<Token, Error>)
        requires
            old(self).wf(),
        ensures
            final(self).wf(),
            final(self).contents == old(self).contents,
            ({
                let step = spec_scan_text(
                    old(self).contents@,
                    old(self).st(),
                    Seq::<char>::empty(),
                    false,
                    start_line as int,
                    start_col as int,
                );
                final(self).st() == step.st && token_res_view(r) == step.res
            }),
            final(self).index >= old(self).index,
    {
        let mut acc: Vec<char> = Vec::new();
        let mut escape = false;
        loop
            invariant
                self.wf(),
                self.contents == old(self).contents,
                self.index >= old(self).index,
                spec_scan_text(
                    self.contents@,
                    self.st(),
                    acc@,
                    escape,
                    start_line as int,
                    start_col as int,
                ) == spec_scan_text(
                    old(self).contents@,
                    old(self).st(),
                    Seq::<char>::empty(),
                    false,
                    start_line as int,
                    start_col as int,
                ),
            decreases self.contents@.len() - self.index,
        {
            let p = self.next();
            match p {
                None => {
                    return Err(Error {
                        line: start_line,
                        column: start_col,
                        error_type: ErrorType::UnexpectedEOF,
                    });
                },
                Some(c) => {
                    if escape {
                        if c == 'n' {
                            acc.push('\n');
                        } else {
                            acc.push(c);
                        }
                        escape = false;
                    } else if c == '\\' {
                        escape = true;
                    } else if c == '\'' {
                        let text = chars_to_string(&acc);
                        return Ok(Token {
                            token_type: TokenType::Literal(Value::String(text)),
                            position: Position { line: start_line, column: start_col },
                        });
                    } else {
                        acc.push(c);
                    }
                },
            }
        }
    }

    /// Scans a numeric literal whose first digit has been consumed.
    fn scan_number(&mut self, first: char, start_line: usize, start_col: usize) -> (r: Result<
        Token,
        Error,
    >)
        requires
            old(self).wf(),
            is_digit_char(first),
        ensures
            final(self).wf(),
            final(self).contents == old(self).contents,
            ({
                let step = spec_number_token(
                    old(self).contents@,
                    old(self).st(),
                    seq![first],
                    false,
                    start_line as int,
                    start_col as int,
                );
                final(self).st() == step.st && token_res_view(r) == step.res
            }),
            final(self).index >= old(self).index,
    {
        let mut acc: Vec<char> = Vec::new();
        acc.push(first);
        let mut is_float = false;
        loop
            invariant
                self.wf(),
                self.contents == old(self).contents,
                self.index >= old(self).index,
                acc@.len() >= 1,
                !is_float ==> forall|j: int| 0 <= j < acc@.len() ==> is_digit_char(
                    #[trigger] acc@[j],
                ),
                spec_scan_number(self.contents@, self.st(), acc@, is_float) == spec_scan_number(
                    old(self).contents@,
                    old(self).st(),
                    seq![first],
                    false,
                ),
            ensures
                self.wf(),
                self.contents == old(self).contents,
                self.index >= old(self).index,
                ({
                    let nsc = spec_scan_number(
                        old(self).contents@,
                        old(self).st(),
                        seq![first],
                        false,
                    );
                    &&& nsc.bad is None
                    &&& self.st() == nsc.st
                    &&& acc@ == nsc.text
                    &&& is_float == nsc.is_float
                }),
                !is_float ==> forall|j: int| 0 <= j < acc@.len() ==> is_digit_char(
                    #[trigger] acc@[j],
                ),
            decreases self.contents@.len() - self.index,
        {
            let p = self.peek();
            match p {
                None => {
                    break;
                },
                Some(c) => {
                    if is_digit(c) {
                        let _ = self.next();
                        acc.push(c);
                    } else if c == '.' {
                        let _ = self.next();
                        acc.push(c);
                        is_float = true;
                    } else if is_alpha(c) {
                        return Err(Error {
                            line: self.line,
                            column: self.column,
                            error_type: ErrorType::UnexpectedChar(c),
                        });
                    } else {
                        break;
                    }
                },
            }
        }
        if is_float {
            match crate::float_bits::float_parse(&acc) {
                Some(bits) => Ok(Token {
                    token_type: TokenType::Literal(Value::Float(bits)),
                    position: Position { line: start_line, column: start_col },
                }),
                None => Err(Error {
                    line: start_line,
                    column: start_col,
                    error_type: ErrorType::FailedToParseFloat,
                }),
            }
        } else {
            match parse_int_digits(&acc) {
                Some(v) => Ok(Token {
                    token_type: TokenType::Literal(Value::Int(v)),
                    position: Position { line: start_line, column: start_col },
                }),
                None => Err(Error {
                    line: start_line,
                    column: start_col,
                    error_type: ErrorType::FailedToParseInt,
                }),
            }
        }
    }

    /// Scans a word whose first letter has been consumed, and resolves it
    /// against the keyword table.
    fn scan_word(&mut self, first: char, start_line: usize, start_col: usize) -> (t: Token)
        requires
            old(self).wf(),
        ensures
            final(self).wf(),
            final(self).contents == old(self).contents,
            ({
                let w = spec_scan_word(old(self).contents@, old(self).st(), seq![first]);
                final(self).st() == w.st && t@ == TokenView {
                    token_type: resolve_word_view(w.text),
                    line: start_line as int,
                    col: start_col as int,
                }
            }),
            final(self).index >= old(self).index,
    {
        let mut acc: Vec<char> = Vec::new();
        acc.push(first);
        loop
            invariant
                self.wf(),
                self.contents == old(self).contents,
                self.index >= old(self).index,
                spec_scan_word(self.contents@, self.st(), acc@) == spec_scan_word(
                    old(self).contents@,
                    old(self).st(),
                    seq![first],
                ),
            ensures
                self.wf(),
                self.contents == old(self).contents,
                self.index >= old(self).index,
                ({
                    let w = spec_scan_word(old(self).contents@, old(self).st(), seq![first]);
                    self.st() == w.st && acc@ == w.text
                }),
            decreases self.contents@.len() - self.index,
        {
            let p = self.peek();
            match p {
                None => {
                    break;
                },
                Some(c) => {
                    if is_alnum(c) {
                        let _ = self.next();
                        acc.push(c);
                    } else {
                        break;
                    }
                },
            }
        }
        let token_type = resolve_word(acc);
        Token { token_type, position: Position { line: start_line, column: start_col } }
    }
}

/// Resolves a completed word against the keyword table.
fn resolve_word(word: Vec<char>) -> (t: TokenType)
    ensures
        t@ == resolve_word_view(word@),
{
    if word_eq(&word, "CONSTANT") {
        TokenType::Constant
    } else if word_eq(&word, "DIV") {
        TokenType::IntDivide
    } else if word_eq(&word, "MOD") {
        TokenType::Modulus
    } else if word_eq(&word, "AND") {
        TokenType::LogicalAnd
    } else if word_eq(&word, "OR") {
        TokenType::LogicalOr
    } else if word_eq(&word, "NOT") {
        TokenType::LogicalNot
    } else if word_eq(&word, "REPEAT") {
        TokenType::Repeat
    } else if word_eq(&word, "UNTIL") {
        TokenType::Until
    } else if word_eq(&word, "WHILE") {
        TokenType::While
    } else if word_eq(&word, "ENDWHILE") {
        TokenType::EndWhile
    } else if word_eq(&word, "FOR") {
        TokenType::For
    } else if word_eq(&word, "TO") {
        TokenType::To
    } else if word_eq(&word, "IN") {
        TokenType::In
    } else if word_eq(&word, "ENDFOR") {
        TokenType::EndFor
    } else if word_eq(&word, "IF") {
        TokenType::If
    } else if word_eq(&word, "THEN") {
        TokenType::Then
    } else if word_eq(&word, "ELSE") {
        TokenType::Else
    } else if word_eq(&word, "ENDIF") {
        TokenType::EndIf
    } else if word_eq(&word, "OUTPUT") {
        TokenType::Output
    } else if word_eq(&word, "True") {
        TokenType::Literal(Value::Bool(true))
    } else if word_eq(&word, "False") {
        TokenType::Literal(Value::Bool(false))
    } else {
        TokenType::Identifier(chars_to_string(&word))
    }
}

} // verus!

verus! {

// ---------------------------------------------------------------------
// One whole token, mathematically and executably
// ---------------------------------------------------------------------

/// A token of the given kind whose first character sits at the cursor.
pub open spec fn tok_at(tt: TokenTypeView, st: ScanState) -> TokenView {
    TokenView { token_type: tt, line: st.line, col: st.col }
}

/// What one call of `scan_token` yields from the given cursor: blanks are
/// skipped, then the next lexeme is classified by its first character, with
/// one character of lookahead deciding the two-character operators.
pub open spec fn spec_scan_token(s: Seq<char>, st0: ScanState) -> ScanStep {
    let st = skip_ws(s, st0);
    if st.i < 0 || st.i >= s.len() {
        ScanStep { st, res: Ok(tok_at(TokenTypeView::Eof, st)) }
    } else {
        let c = s[st.i];
        let st1 = advance(s, st);
        if c == '\n' {
            ScanStep { st: st1, res: Ok(tok_at(TokenTypeView::LineBreak, st)) }
        } else if c == '<' {
            if st1.i < s.len() && s[st1.i] == '-' {
                ScanStep { st: advance(s, st1), res: Ok(tok_at(TokenTypeView::Assign, st)) }
            } else if st1.i < s.len() && s[st1.i] == '=' {
                ScanStep {
                    st: advance(s, st1),
                    res: Ok(tok_at(TokenTypeView::LessThanOrEqualTo, st)),
                }
            } else {
                ScanStep { st: st1, res: Ok(tok_at(TokenTypeView::LessThan, st)) }
            }
        } else if c == '>' {
            if st1.i < s.len() && s[st1.i] == '=' {
                ScanStep {
                    st: advance(s, st1),
                    res: Ok(tok_at(TokenTypeView::GreaterThanOrEqualTo, st)),
                }
            } else {
                ScanStep { st: st1, res: Ok(tok_at(TokenTypeView::GreaterThan, st)) }
            }
        } else if c == '!' {
            if st1.i >= s.len() {
                ScanStep {
                    st: st1,
                    res: Err(ErrorView {
                        line: st.line,
                        col: st.col,
                        error_type: ErrorType::UnexpectedEOF,
                    }),
                }
            } else if s[st1.i] == '=' {
                ScanStep { st: advance(s, st1), res: Ok(tok_at(TokenTypeView::NotEqualTo, st)) }
            } else {
                ScanStep {
                    st: st1,
                    res: Err(ErrorView {
                        line: st1.line,
                        col: st1.col,
                        error_type: ErrorType::UnexpectedChar(s[st1.i]),
                    }),
                }
            }
        } else if c == '+' {
            ScanStep { st: st1, res: Ok(tok_at(TokenTypeView::Add, st)) }
        } else if c == '-' {
            ScanStep { st: st1, res: Ok(tok_at(TokenTypeView::Subtract, st)) }
        } else if c == '*' {
            ScanStep { st: st1, res: Ok(tok_at(TokenTypeView::Multiply, st)) }
        } else if c == '/' {
            ScanStep { st: st1, res: Ok(tok_at(TokenTypeView::Divide, st)) }
        } else if c == '=' {
            ScanStep { st: st1, res: Ok(tok_at(TokenTypeView::EqualTo, st)) }
        } else if c == '(' {
            ScanStep { st: st1, res: Ok(tok_at(TokenTypeView::LeftParen, st)) }
        } else if c == ')' {
            ScanStep { st: st1, res: Ok(tok_at(TokenTypeView::RightParen, st)) }
        } else if c == '\'' {
            spec_scan_text(s, st1, Seq::<char>::empty(), false, st.line, st.col)
        } else if is_digit_char(c) {
            spec_number_token(s, st1, seq![c], false, st.line, st.col)
        } else if is_alpha_char(c) {
            let w = spec_scan_word(s, st1, seq![c]);
            ScanStep { st: w.st, res: Ok(tok_at(resolve_word_view(w.text), st)) }
        } else {
            ScanStep {
                st: st1,
                res: Err(ErrorView {
                    line: st.line,
                    col: st.col,
                    error_type: ErrorType::UnexpectedChar(c),
                }),
            }
        }
    }
}

impl Scanner {
    /// Skips blanks and scans exactly one token, the `Eof` sentinel when
    /// only blanks remain, or a positioned error; the cursor ends exactly
    /// where the model `spec_scan_token` says.
    pub fn scan_token(&mut self) -> (r: Result<Token, Error>)
        requires
            old(self).wf(),
        ensures
            final(self).wf(),
            final(self).contents == old(self).contents,
            ({
                let step = spec_scan_token(old(self).contents@, old(self).st());
                final(self).st() == step.st && token_res_view(r) == step.res
            }),
            (r matches Ok(t) && !(t@.token_type is Eof)) ==> final(self).index > old(
                self,
            ).index,
    {
        self.skip_whitespace();
        let line0 = self.line;
        let col0 = self.column;
        let p = self.peek();
        let c = match p {
            None => {
                return Ok(Token {
                    token_type: TokenType::Eof,
                    position: Position { line: line0, column: col0 },
                });
            },
            Some(c) => c,
        };
        let _ = self.next();
        if c == '\n' {
            Ok(Token {
                token_type: TokenType::LineBreak,
                position: Position { line: line0, column: col0 },
            })
        } else if c == '<' {
            match self.peek() {
                Some(d) => {
                    if d == '-' {
                        let _ = self.next();
                        Ok(Token {
                            token_type: TokenType::Assign,
                            position: Position { line: line0, column: col0 },
                        })
                    } else if d == '=' {
                        let _ = self.next();
                        Ok(Token {
                            token_type: TokenType::LessThanOrEqualTo,
                            position: Position { line: line0, column: col0 },
                        })
                    } else {
                        Ok(Token {
                            token_type: TokenType::LessThan,
                            position: Position { line: line0, column: col0 },
                        })
                    }
                },
                None => Ok(Token {
                    token_type: TokenType::LessThan,
                    position: Position { line: line0, column: col0 },
                }),
            }
        } else if c == '>' {
            match self.peek() {
                Some(d) => {
                    if d == '=' {
                        let _ = self.next();
                        Ok(Token {
                            token_type: TokenType::GreaterThanOrEqualTo,
                            position: Position { line: line0, column: col0 },
                        })
                    } else {
                        Ok(Token {
                            token_type: TokenType::GreaterThan,
                            position: Position { line: line0, column: col0 },
                        })
                    }
                },
                None => Ok(Token {
                    token_type: TokenType::GreaterThan,
                    position: Position { line: line0, column: col0 },
                }),
            }
        } else if c == '!' {
            match self.peek() {
                Some(d) => {
                    if d == '=' {
                        let _ = self.next();
                        Ok(Token {
                            token_type: TokenType::NotEqualTo,
                            position: Position { line: line0, column: col0 },
                        })
                    } else {
                        Err(Error {
                            line: self.line,
                            column: self.column,
                            error_type: ErrorType::UnexpectedChar(d),
                        })
                    }
                },
                None => Err(Error {
                    line: line0,
                    column: col0,
                    error_type: ErrorType::UnexpectedEOF,
                }),
            }
        } else if c == '+' {
            Ok(Token { token_type: TokenType::Add, position: Position { line: line0, column: col0 } })
        } else if c == '-' {
            Ok(Token {
                token_type: TokenType::Subtract,
                position: Position { line: line0, column: col0 },
            })
        } else if c == '*' {
            Ok(Token {
                token_type: TokenType::Multiply,
                position: Position { line: line0, column: col0 },
            })
        } else if c == '/' {
            Ok(Token {
                token_type: TokenType::Divide,
                position: Position { line: line0, column: col0 },
            })
        } else if c == '=' {
            Ok(Token {
                token_type: TokenType::EqualTo,
                position: Position { line: line0, column: col0 },
            })
        } else if c == '(' {
            Ok(Token {
                token_type: TokenType::LeftParen,
                position: Position { line: line0, column: col0 },
            })
        } else if c == ')' {
            Ok(Token {
                token_type: TokenType::RightParen,
                position: Position { line: line0, column: col0 },
            })
        } else if c == '\'' {
            self.scan_text(line0, col0)
        } else if is_digit(c) {
            self.scan_number(c, line0, col0)
        } else if is_alpha(c) {
            Ok(self.scan_word(c, line0, col0))
        } else {
            Err(Error { line: line0, column: col0, error_type: ErrorType::UnexpectedChar(c) })
        }
    }
}

// ---------------------------------------------------------------------
// The whole token sequence
// ---------------------------------------------------------------------

/// A token vector seen mathematically.
pub open spec fn tokens_view(ts: Seq<Token>) -> Seq<TokenView> {
    Seq::new(ts.len(), |k: int| ts[k]@)
}

/// The full ordered token sequence from the given cursor, ending with the
/// `Eof` sentinel, or the first scan failure.
///
/// A step that fails to move the cursor forward is left unspecified
/// (`arbitrary()`): every token but the sentinel consumes at least one
/// character, as `scan_token`'s contract shows, so that branch is never
/// taken.
pub open spec fn spec_scan(s: Seq<char>, st: ScanState) -> Result<Seq<TokenView>, ErrorView>
    decreases s.len() - st.i + 1,
{
    let step = spec_scan_token(s, st);
    match step.res {
        Err(e) => Err(e),
        Ok(t) => {
            if t.token_type is Eof {
                Ok(seq![t])
            } else if st.i < step.st.i && step.st.i <= s.len() {
                match spec_scan(s, step.st) {
                    Err(e) => Err(e),
                    Ok(rest) => Ok(seq![t] + rest),
                }
            } else {
                arbitrary()
            }
        },
    }
}

/// Scans every token up to and including the `Eof` sentinel, or stops at
/// the first failure.
pub fn scan(scanner: &mut Scanner) -> (r: Result<Vec<Token>, Error>)
    requires
        old(scanner).wf(),
    ensures
        final(scanner).wf(),
        final(scanner).contents == old(scanner).contents,
        ({
            let sres = spec_scan(old(scanner).contents@, old(scanner).st());
            match (r, sres) {
                (Ok(v), Ok(tvs)) => tokens_view(v@) == tvs,
                (Err(e), Err(ev)) => e@ == ev,
                _ => false,
            }
        }),
        r matches Ok(v) ==> v@.len() >= 1 && v@[v@.len() - 1]@.token_type is Eof,
{
    let mut tokens: Vec<Token> = Vec::new();
    loop
        invariant
            scanner.wf(),
            scanner.contents == old(scanner).contents,
            spec_scan(old(scanner).contents@, old(scanner).st()) == (match spec_scan(
                scanner.contents@,
                scanner.st(),
            ) {
                Ok(rest) => Ok::<Seq<TokenView>, ErrorView>(tokens_view(tokens@) + rest),
                Err(e) => Err::<Seq<TokenView>, ErrorView>(e),
            }),
        decreases scanner.contents@.len() - scanner.index,
    {
        let t = scanner.scan_token();
        match t {
            Err(e) => {
                return Err(e);
            },
            Ok(t) => {
                let eof = t.is_eof();
                proof {
                    assert(tokens_view(tokens@.push(t)) =~= tokens_view(tokens@) + seq![t@]);
                }
                tokens.push(t);
                if eof {
                    return Ok(tokens);
                }
                proof {
                    assert(forall|a: Seq<TokenView>, b: Seq<TokenView>, c: Seq<TokenView>|
                        (a + b) + c =~= a + (b + c));
                }
            },
        }
    }
}

} // verus!
