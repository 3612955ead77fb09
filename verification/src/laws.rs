//! Laws of the pipeline, stated over the mathematical models and proved
//! once for all inputs.

use vstd::prelude::*;
use crate::{ValueView, spec_run};
use crate::scanner::{
    ScanState, advance, skip_ws, spec_scan_token, spec_scan_number, NumScan, spec_scan, tok_at,
    TokenTypeView, dec_val, is_space_char, is_digit_char, is_alpha_char,
};
use crate::interpreter::spec_eval;
use crate::parser::ExprType;

verus! {

/// Law: evaluation is pure. Equal trees evaluate to equal outcomes, and
/// `evaluate` returns exactly `spec_eval` of its argument's shape, so
/// evaluating the same tree twice, with no mutation in between, yields
/// bit-identical values both times.
pub proof fn lemma_evaluate_pure(e1: ExprType, e2: ExprType)
    requires
        e1@ == e2@,
    ensures
        spec_eval(e1@) == spec_eval(e2@),
{
}

/// Law: after a `<`, one character of lookahead decides the token. A
/// following `-` makes one Assign token and a following `=` one
/// LessThanOrEqualTo token, each consuming both characters; any other
/// following character (or none) leaves a LessThan token and stays
/// unconsumed, to be scanned independently.
pub proof fn lemma_less_than_lookahead(s: Seq<char>, st: ScanState)
    requires
        0 <= st.i < s.len(),
        s[st.i] == '<',
    ensures
        ({
            let step = spec_scan_token(s, st);
            &&& (st.i + 1 < s.len() && s[st.i + 1] == '-') ==> step.res == Ok::<_, crate::scanner::ErrorView>(
                tok_at(TokenTypeView::Assign, st),
            ) && step.st.i == st.i + 2
            &&& (st.i + 1 < s.len() && s[st.i + 1] == '=') ==> step.res == Ok::<_, crate::scanner::ErrorView>(
                tok_at(TokenTypeView::LessThanOrEqualTo, st),
            ) && step.st.i == st.i + 2
            &&& (st.i + 1 >= s.len() || (s[st.i + 1] != '-' && s[st.i + 1] != '=')) ==> step.res
                == Ok::<_, crate::scanner::ErrorView>(tok_at(TokenTypeView::LessThan, st))
                && step.st.i == st.i + 1
        }),
{
    assert(!is_space_char('<'));
    assert(skip_ws(s, st) == st);
}

/// Skipping a run of blanks: the cursor lands on the first non-blank
/// character (or the end), on the same line, the column grown by the run.
proof fn lemma_skip_ws_run(s: Seq<char>, st: ScanState, j: int)
    requires
        0 <= st.i <= j <= s.len(),
        forall|k: int| st.i <= k < j ==> is_space_char(#[trigger] s[k]),
        j == s.len() || !is_space_char(s[j]),
    ensures
        skip_ws(s, st) == (ScanState { i: j, line: st.line, col: st.col + (j - st.i) }),
    decreases j - st.i,
{
    if st.i < j {
        assert(is_space_char(s[st.i]));
        assert(s[st.i] != '\n');
        lemma_skip_ws_run(s, advance(s, st), j);
    }
}

/// Scanning a run of digits ended by something that ends a numeric literal:
/// every digit is consumed into the text, nothing else.
proof fn lemma_scan_number_digits(s: Seq<char>, st: ScanState, acc: Seq<char>, j: int)
    requires
        0 <= st.i <= j <= s.len(),
        forall|k: int| st.i <= k < j ==> is_digit_char(#[trigger] s[k]),
        j == s.len() || (!is_digit_char(s[j]) && s[j] != '.' && !is_alpha_char(s[j])),
    ensures
        spec_scan_number(s, st, acc, false) == (NumScan {
            st: ScanState { i: j, line: st.line, col: st.col + (j - st.i) },
            text: acc + s.subrange(st.i, j),
            is_float: false,
            bad: None,
        }),
    decreases j - st.i,
{
    if st.i < j {
        assert(is_digit_char(s[st.i]));
        assert(s[st.i] != '\n');
        lemma_scan_number_digits(s, advance(s, st), acc.push(s[st.i]), j);
        assert(acc.push(s[st.i]) + s.subrange(st.i + 1, j) =~= acc + s.subrange(st.i, j));
    } else {
        assert(acc + s.subrange(st.i, j) =~= acc);
    }
}

/// Law: a source text that is one integer literal, surrounded by any runs
/// of blanks, runs to exactly that integer, whenever its value fits the
/// 64-bit signed range.
pub proof fn lemma_integer_literal_pipeline(s: Seq<char>, a: int, b: int)
    requires
        0 <= a <= b <= s.len(),
        b - a >= 1,
        forall|k: int| 0 <= k < a ==> is_space_char(#[trigger] s[k]),
        forall|k: int| a <= k < b ==> is_digit_char(#[trigger] s[k]),
        forall|k: int| b <= k < s.len() ==> is_space_char(#[trigger] s[k]),
        dec_val(s.subrange(a, b)) <= i64::MAX,
    ensures
        spec_run(s) == Ok::<ValueView, crate::error::ErrorView>(
            ValueView::Int(dec_val(s.subrange(a, b)) as i64),
        ),
{
    let st0 = ScanState { i: 0, line: 1, col: 1 };
    // the leading blanks fall away
    assert(!is_space_char(s[a]));
    lemma_skip_ws_run(s, st0, a);
    let st1 = ScanState { i: a, line: 1, col: 1 + a };
    assert(skip_ws(s, st0) == st1);
    // the first character is a digit, so a numeric literal is scanned
    let c = s[a];
    assert(c != '\n' && c != '<' && c != '>' && c != '!' && c != '+' && c != '-' && c != '*'
        && c != '/' && c != '=' && c != '(' && c != ')' && c != '\'');
    let st2 = advance(s, st1);
    assert(st2 == ScanState { i: a + 1, line: 1, col: 2 + a });
    lemma_scan_number_digits(s, st2, seq![c], b);
    assert(seq![c] + s.subrange(a + 1, b) =~= s.subrange(a, b));
    let digits = s.subrange(a, b);
    let nst = ScanState { i: b, line: 1, col: 1 + b };
    assert(spec_scan_number(s, st2, seq![c], false) == (NumScan {
        st: nst,
        text: digits,
        is_float: false,
        bad: None,
    }));
    let int_tok = tok_at(TokenTypeView::Literal(ValueView::Int(dec_val(digits) as i64)), st1);
    let step1 = spec_scan_token(s, st0);
    assert(step1.res == Ok::<_, crate::scanner::ErrorView>(int_tok) && step1.st == nst);
    // the trailing blanks fall away and only the sentinel remains
    lemma_skip_ws_run(s, nst, s.len() as int);
    let st3 = ScanState { i: s.len() as int, line: 1, col: 1 + s.len() as int };
    let eof_tok = tok_at(TokenTypeView::Eof, st3);
    let step2 = spec_scan_token(s, nst);
    assert(step2.res == Ok::<_, crate::scanner::ErrorView>(eof_tok) && step2.st == st3);
    assert(spec_scan(s, nst) == Ok::<_, crate::scanner::ErrorView>(seq![eof_tok]));
    let toks = seq![int_tok, eof_tok];
    assert(seq![int_tok] + seq![eof_tok] =~= toks);
    assert(spec_scan(s, st0) == Ok::<_, crate::scanner::ErrorView>(toks));
    // the parser sees one literal and the sentinel: a single leaf
    let prim = crate::parser::spec_primary(toks, 0);
    assert(toks[0] == int_tok && toks[1] == eof_tok);
    assert(prim.res == Ok::<_, crate::parser::ErrorView>(
        crate::parser::ExprView::Literal(ValueView::Int(dec_val(digits) as i64)),
    ) && prim.j == 1);
    let step = crate::parser::spec_expression(toks, 0);
    assert(step.res == Ok::<_, crate::parser::ErrorView>(
        crate::parser::ExprView::Literal(ValueView::Int(dec_val(digits) as i64)),
    ));
    // and the leaf evaluates to its own value
}

} // verus!
