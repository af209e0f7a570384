//! The postfix converter of the expression compiler: a precedence-climbing
//! pass over the infix token stream that emits operands immediately and each
//! operator after its operands, so that the result is evaluable by a simple
//! operand stack. The pass is specified by recursive spec functions over the
//! token sequence; the executable parser is proved to return exactly what
//! they describe.

use vstd::prelude::*;
use crate::common::{IrError, ParseError, ParseErrorKind};
use crate::expr::{
    is_binary, prec, ExprOpr, ExprToken, InfixToken, PosToken, SpecExprToken, SpecInfixToken,
    SpecPosToken, SuffixExpr,
};
use crate::lexer::{parse_err, spec_tokenize_from, tokenize};

verus! {

// ---------------------------------------------------------------------------
// The grammar-directed translation to postfix order
// ---------------------------------------------------------------------------

/// A primary expression at `pos`: an operand, a negation, or a parenthesized
/// expression. Yields its postfix rendering and the position after it; `eof`
/// is the byte position reported when the text ends too early.
pub open spec fn spec_primary(ts: Seq<SpecPosToken>, pos: int, eof: int) -> Result<
    (Seq<SpecExprToken>, int),
    ParseError,
>
    decreases ts.len() - pos, 0int when 0 <= pos <= ts.len()
{
    if pos >= ts.len() {
        Result::Err(parse_err(eof, ParseErrorKind::UnexpectedEnd))
    } else {
        match ts[pos].tok {
            SpecInfixToken::Var(v) => Result::Ok((seq![SpecExprToken::Var(v)], pos + 1)),
            SpecInfixToken::Lit(c) => Result::Ok((seq![SpecExprToken::Lit(c)], pos + 1)),
            SpecInfixToken::Opr(o) => if o == ExprOpr::Not {
                match spec_primary(ts, pos + 1, eof) {
                    Result::Err(e) => Result::Err(e),
                    Result::Ok((sub, p)) => Result::Ok(
                        (sub.push(SpecExprToken::Opr(ExprOpr::Not)), p),
                    ),
                }
            } else {
                Result::Err(parse_err(ts[pos].pos, ParseErrorKind::UnexpectedToken))
            },
            SpecInfixToken::LParen => match spec_expr(ts, pos + 1, 1, eof) {
                Result::Err(e) => Result::Err(e),
                Result::Ok((sub, p)) => if p < ts.len() && ts[p].tok is RParen {
                    Result::Ok((sub, p + 1))
                } else if p < ts.len() {
                    Result::Err(parse_err(ts[p].pos, ParseErrorKind::UnbalancedParen))
                } else {
                    Result::Err(parse_err(eof, ParseErrorKind::UnbalancedParen))
                },
            },
            SpecInfixToken::RParen => Result::Err(
                parse_err(ts[pos].pos, ParseErrorKind::UnbalancedParen),
            ),
        }
    }
}

/// Continue a parsed left operand at `pos` with every binary operator of
/// binding strength at least `min_prec`, left-associatively.
pub open spec fn spec_binrest(
    ts: Seq<SpecPosToken>,
    lhs: Seq<SpecExprToken>,
    pos: int,
    min_prec: int,
    eof: int,
) -> Result<(Seq<SpecExprToken>, int), ParseError>
    decreases ts.len() - pos, 1int when 0 <= pos <= ts.len()
{
    if pos < ts.len() && (ts[pos].tok matches SpecInfixToken::Opr(o) && is_binary(o) && prec(o)
        >= min_prec) {
        let o = ts[pos].tok->Opr_0;
        match spec_expr(ts, pos + 1, prec(o) + 1, eof) {
            Result::Err(e) => Result::Err(e),
            Result::Ok((rhs, p2)) => if pos < p2 <= ts.len() {
                spec_binrest(ts, lhs + rhs + seq![SpecExprToken::Opr(o)], p2, min_prec, eof)
            } else {
                // never taken: a parsed right operand advances (lemma_expr_advances)
                Result::Err(parse_err(eof, ParseErrorKind::UnexpectedEnd))
            },
        }
    } else {
        Result::Ok((lhs, pos))
    }
}

/// A full expression at `pos` whose operators all bind at least as tightly
/// as `min_prec`.
pub open spec fn spec_expr(ts: Seq<SpecPosToken>, pos: int, min_prec: int, eof: int) -> Result<
    (Seq<SpecExprToken>, int),
    ParseError,
>
    decreases ts.len() - pos, 2int when 0 <= pos <= ts.len()
{
    match spec_primary(ts, pos, eof) {
        Result::Err(e) => Result::Err(e),
        Result::Ok((lhs, p)) => if pos < p <= ts.len() {
            spec_binrest(ts, lhs, p, min_prec, eof)
        } else {
            // never taken: a parsed primary advances (lemma_primary_advances)
            Result::Err(parse_err(eof, ParseErrorKind::UnexpectedEnd))
        },
    }
}

/// The whole token stream as one expression: empty input is an error, and so
/// is any token left over after the expression ends.
pub open spec fn spec_parse(ts: Seq<SpecPosToken>, eof: int) -> Result<
    Seq<SpecExprToken>,
    ParseError,
> {
    if ts.len() == 0 {
        Result::Err(parse_err(0, ParseErrorKind::EmptyInput))
    } else {
        match spec_expr(ts, 0, 1, eof) {
            Result::Err(e) => Result::Err(e),
            Result::Ok((out, p)) => if p == ts.len() {
                Result::Ok(out)
            } else {
                Result::Err(parse_err(ts[p].pos, ParseErrorKind::TrailingInput))
            },
        }
    }
}

/// Whether the text holds an embedded NUL byte, which is rejected before
/// parsing begins.
pub open spec fn has_nul(s: Seq<u8>) -> bool {
    exists|i: int| 0 <= i < s.len() && s[i] == 0
}

/// What compiling an expression text yields: its postfix token sequence, or
/// the first error of the scan or of the conversion.
pub open spec fn spec_compile(s: Seq<u8>) -> Result<Seq<SpecExprToken>, IrError> {
    if has_nul(s) {
        Result::Err(IrError::InvalidInputString)
    } else {
        match spec_tokenize_from(s, 0) {
            Result::Err(pe) => Result::Err(IrError::Parse(pe)),
            Result::Ok(ts) => match spec_parse(ts, s.len() as int) {
                Result::Err(pe) => Result::Err(IrError::Parse(pe)),
                Result::Ok(out) => Result::Ok(out),
            },
        }
    }
}

// ---------------------------------------------------------------------------
// Every parse step advances the scan: these lemmas show that the guarded
// fallback branches of `spec_expr` and `spec_binrest` are never taken.
// ---------------------------------------------------------------------------

pub proof fn lemma_primary_advances(ts: Seq<SpecPosToken>, pos: int, eof: int)
    requires
        0 <= pos <= ts.len(),
    ensures
        spec_primary(ts, pos, eof) matches Result::Ok(sp) ==> pos < sp.1 <= ts.len(),
    decreases ts.len() - pos, 0int,
{
    if pos < ts.len() {
        match ts[pos].tok {
            SpecInfixToken::Opr(o) => {
                if o == ExprOpr::Not {
                    lemma_primary_advances(ts, pos + 1, eof);
                }
            },
            SpecInfixToken::LParen => {
                lemma_expr_advances(ts, pos + 1, 1, eof);
            },
            _ => {},
        }
    }
}

pub proof fn lemma_binrest_advances(
    ts: Seq<SpecPosToken>,
    lhs: Seq<SpecExprToken>,
    pos: int,
    min_prec: int,
    eof: int,
)
    requires
        0 <= pos <= ts.len(),
    ensures
        spec_binrest(ts, lhs, pos, min_prec, eof) matches Result::Ok(sp) ==> pos <= sp.1
            <= ts.len(),
    decreases ts.len() - pos, 1int,
{
    if pos < ts.len() && (ts[pos].tok matches SpecInfixToken::Opr(o) && is_binary(o) && prec(o)
        >= min_prec) {
        let o = ts[pos].tok->Opr_0;
        lemma_expr_advances(ts, pos + 1, prec(o) + 1, eof);
        match spec_expr(ts, pos + 1, prec(o) + 1, eof) {
            Result::Ok((rhs, p2)) => {
                if pos < p2 <= ts.len() {
                    lemma_binrest_advances(
                        ts,
                        lhs + rhs + seq![SpecExprToken::Opr(o)],
                        p2,
                        min_prec,
                        eof,
                    );
                }
            },
            Result::Err(_) => {},
        }
    }
}

pub proof fn lemma_expr_advances(ts: Seq<SpecPosToken>, pos: int, min_prec: int, eof: int)
    requires
        0 <= pos <= ts.len(),
    ensures
        spec_expr(ts, pos, min_prec, eof) matches Result::Ok(sp) ==> pos < sp.1 <= ts.len(),
    decreases ts.len() - pos, 2int,
{
    lemma_primary_advances(ts, pos, eof);
    match spec_primary(ts, pos, eof) {
        Result::Ok((lhs, p)) => {
            if pos < p <= ts.len() {
                lemma_binrest_advances(ts, lhs, p, min_prec, eof);
            }
        },
        Result::Err(_) => {},
    }
}

// ---------------------------------------------------------------------------
// The executable parser
// ---------------------------------------------------------------------------

fn prec_of(o: ExprOpr) -> (r: u32)
    ensures
        r as int == prec(o),
{
    match o {
        ExprOpr::Or => 1,
        ExprOpr::And => 2,
        ExprOpr::Eq => 3,
        ExprOpr::Ne => 3,
        ExprOpr::Lt => 3,
        ExprOpr::Le => 3,
        ExprOpr::Gt => 3,
        ExprOpr::Ge => 3,
        ExprOpr::Add => 4,
        ExprOpr::Sub => 4,
        ExprOpr::Mul => 5,
        ExprOpr::Div => 5,
        ExprOpr::Not => 6,
    }
}

fn parse_primary(ts: &Vec<PosToken>, pos: usize, eof: usize) -> (r: Result<
    (Vec<ExprToken>, usize),
    ParseError,
>)
    requires
        pos <= ts@.len(),
    ensures
        match r {
            Result::Ok(op) => spec_primary(ts.deep_view(), pos as int, eof as int) == Result::<
                (Seq<SpecExprToken>, int),
                ParseError,
            >::Ok((op.0.deep_view(), op.1 as int)) && pos < op.1 <= ts@.len(),
            Result::Err(e) => spec_primary(ts.deep_view(), pos as int, eof as int) == Result::<
                (Seq<SpecExprToken>, int),
                ParseError,
            >::Err(e),
        },
    decreases ts@.len() - pos, 0int,
{
    if pos >= ts.len() {
        return Result::Err(ParseError { pos: eof, kind: ParseErrorKind::UnexpectedEnd });
    }
    match &ts[pos].tok {
        InfixToken::Var(v) => {
            let out: Vec<ExprToken> = vec![ExprToken::Var(v.clone())];
            proof {
                assert(out.deep_view() =~= seq![SpecExprToken::Var(v@)]);
            }
            Result::Ok((out, pos + 1))
        },
        InfixToken::Lit(c) => {
            let out: Vec<ExprToken> = vec![ExprToken::Lit(c.clone())];
            proof {
                assert(out.deep_view() =~= seq![SpecExprToken::Lit(c@)]);
            }
            Result::Ok((out, pos + 1))
        },
        InfixToken::Opr(o) => {
            if *o == ExprOpr::Not {
                match parse_primary(ts, pos + 1, eof) {
                    Result::Err(e) => Result::Err(e),
                    Result::Ok((mut sub, p)) => {
                        let ghost sub0 = sub.deep_view();
                        sub.push(ExprToken::Opr(ExprOpr::Not));
                        proof {
                            assert(sub.deep_view() =~= sub0.push(
                                SpecExprToken::Opr(ExprOpr::Not),
                            ));
                        }
                        Result::Ok((sub, p))
                    },
                }
            } else {
                Result::Err(ParseError { pos: ts[pos].pos, kind: ParseErrorKind::UnexpectedToken })
            }
        },
        InfixToken::LParen => {
            match parse_expr(ts, pos + 1, 1, eof) {
                Result::Err(e) => Result::Err(e),
                Result::Ok((sub, p)) => {
                    if p < ts.len() {
                        match &ts[p].tok {
                            InfixToken::RParen => Result::Ok((sub, p + 1)),
                            _ => Result::Err(
                                ParseError {
                                    pos: ts[p].pos,
                                    kind: ParseErrorKind::UnbalancedParen,
                                },
                            ),
                        }
                    } else {
                        Result::Err(ParseError { pos: eof, kind: ParseErrorKind::UnbalancedParen })
                    }
                },
            }
        },
        InfixToken::RParen => Result::Err(
            ParseError { pos: ts[pos].pos, kind: ParseErrorKind::UnbalancedParen },
        ),
    }
}

fn parse_expr(ts: &Vec<PosToken>, pos: usize, min_prec: u32, eof: usize) -> (r: Result<
    (Vec<ExprToken>, usize),
    ParseError,
>)
    requires
        pos <= ts@.len(),
    ensures
        match r {
            Result::Ok(op) => spec_expr(ts.deep_view(), pos as int, min_prec as int, eof as int)
                == Result::<(Seq<SpecExprToken>, int), ParseError>::Ok(
                (op.0.deep_view(), op.1 as int),
            ) && pos < op.1 <= ts@.len(),
            Result::Err(e) => spec_expr(ts.deep_view(), pos as int, min_prec as int, eof as int)
                == Result::<(Seq<SpecExprToken>, int), ParseError>::Err(e),
        },
    decreases ts@.len() - pos, 2int,
{
    let mut lhs: Vec<ExprToken>;
    let mut p: usize;
    match parse_primary(ts, pos, eof) {
        Result::Err(e) => {
            return Result::Err(e);
        },
        Result::Ok((l, pp)) => {
            lhs = l;
            p = pp;
        },
    }
    loop
        invariant
            pos < p <= ts@.len(),
            spec_expr(ts.deep_view(), pos as int, min_prec as int, eof as int) == spec_binrest(
                ts.deep_view(),
                lhs.deep_view(),
                p as int,
                min_prec as int,
                eof as int,
            ),
        decreases ts@.len() - p,
    {
        if p >= ts.len() {
            return Result::Ok((lhs, p));
        }
        let o: ExprOpr = match &ts[p].tok {
            InfixToken::Opr(o) => *o,
            _ => {
                return Result::Ok((lhs, p));
            },
        };
        if o == ExprOpr::Not {
            return Result::Ok((lhs, p));
        }
        let po = prec_of(o);
        if po < min_prec {
            return Result::Ok((lhs, p));
        }
        match parse_expr(ts, p + 1, po + 1, eof) {
            Result::Err(e) => {
                return Result::Err(e);
            },
            Result::Ok((mut rhs, p2)) => {
                let ghost lhs0 = lhs.deep_view();
                let ghost rhs0 = rhs.deep_view();
                lhs.append(&mut rhs);
                lhs.push(ExprToken::Opr(o));
                proof {
                    assert(lhs.deep_view() =~= lhs0 + rhs0 + seq![SpecExprToken::Opr(o)]);
                }
                p = p2;
            },
        }
    }
}

/// Convert a whole infix token stream into its postfix rendering.
fn parse_tokens(ts: &Vec<PosToken>, eof: usize) -> (r: Result<Vec<ExprToken>, ParseError>)
    ensures
        match r {
            Result::Ok(out) => spec_parse(ts.deep_view(), eof as int) == Result::<
                Seq<SpecExprToken>,
                ParseError,
            >::Ok(out.deep_view()),
            Result::Err(e) => spec_parse(ts.deep_view(), eof as int) == Result::<
                Seq<SpecExprToken>,
                ParseError,
            >::Err(e),
        },
{
    if ts.len() == 0 {
        return Result::Err(ParseError { pos: 0, kind: ParseErrorKind::EmptyInput });
    }
    match parse_expr(ts, 0, 1, eof) {
        Result::Err(e) => Result::Err(e),
        Result::Ok((out, p)) => {
            if p == ts.len() {
                Result::Ok(out)
            } else {
                Result::Err(ParseError { pos: ts[p].pos, kind: ParseErrorKind::TrailingInput })
            }
        },
    }
}

/// Whether the text holds an embedded NUL byte.
fn contains_nul(s: &[u8]) -> (r: bool)
    ensures
        r == has_nul(s@),
{
    let mut i: usize = 0;
    while i < s.len()
        invariant
            i <= s@.len(),
            forall|j: int| 0 <= j < i ==> s@[j] != 0,
        decreases s@.len() - i,
    {
        if s[i] == 0 {
            return true;
        }
        i = i + 1;
    }
    false
}

/// Compile an infix predicate or projection text into its postfix token
/// sequence. A text with an embedded NUL byte is rejected before parsing
/// begins; any other failure is a parse error carrying the byte position at
/// fault.
pub fn compile(text: &[u8]) -> (r: Result<SuffixExpr, IrError>)
    ensures
        match r {
            Result::Ok(e) => spec_compile(text@) == Result::<Seq<SpecExprToken>, IrError>::Ok(e@),
            Result::Err(err) => spec_compile(text@) == Result::<Seq<SpecExprToken>, IrError>::Err(
                err,
            ),
        },
{
    if contains_nul(text) {
        return Result::Err(IrError::InvalidInputString);
    }
    match tokenize(text) {
        Result::Err(pe) => Result::Err(IrError::Parse(pe)),
        Result::Ok(ts) => match parse_tokens(&ts, text.len()) {
            Result::Err(pe) => Result::Err(IrError::Parse(pe)),
            Result::Ok(out) => Result::Ok(SuffixExpr { tokens: out }),
        },
    }
}

} // verus!
