//! The tokenizer of the expression compiler: a single left-to-right scan of
//! the source bytes into infix tokens. The scan is specified by recursive
//! spec functions over the byte sequence; the executable scanner is proved
//! to return exactly what they describe.

use vstd::prelude::*;
use crate::common::{
    Const, DecimalF64, NameOrId, ParseError, ParseErrorKind, Property, SpecNameOrId, SpecProperty,
    SpecVariable, Variable,
};
use crate::expr::{ExprOpr, InfixToken, PosToken, SpecInfixToken, SpecPosToken};

verus! {

// ---------------------------------------------------------------------------
// Byte classes of the grammar
// ---------------------------------------------------------------------------

pub open spec fn is_ws(b: u8) -> bool {
    b == ' ' as u8 || b == '\t' as u8 || b == '\n' as u8 || b == '\r' as u8
}

pub open spec fn is_digit(b: u8) -> bool {
    '0' as u8 <= b && b <= '9' as u8
}

pub open spec fn is_letter(b: u8) -> bool {
    ('a' as u8 <= b && b <= 'z' as u8) || ('A' as u8 <= b && b <= 'Z' as u8)
}

pub open spec fn is_ident_start(b: u8) -> bool {
    is_letter(b) || b == '_' as u8
}

pub open spec fn is_ident_char(b: u8) -> bool {
    is_ident_start(b) || is_digit(b)
}

// ---------------------------------------------------------------------------
// Scanning positions: whitespace, identifier runs, digit runs, string ends
// ---------------------------------------------------------------------------

/// First position at or after `pos` holding a non-whitespace byte, or the end.
pub open spec fn skip_ws(s: Seq<u8>, pos: int) -> int
    decreases s.len() - pos when 0 <= pos <= s.len()
{
    if pos < s.len() && is_ws(s[pos]) {
        skip_ws(s, pos + 1)
    } else {
        pos
    }
}

/// End of the identifier run starting at `pos`.
pub open spec fn ident_end(s: Seq<u8>, pos: int) -> int
    decreases s.len() - pos when 0 <= pos <= s.len()
{
    if pos < s.len() && is_ident_char(s[pos]) {
        ident_end(s, pos + 1)
    } else {
        pos
    }
}

/// End of the digit run starting at `pos`.
pub open spec fn digit_end(s: Seq<u8>, pos: int) -> int
    decreases s.len() - pos when 0 <= pos <= s.len()
{
    if pos < s.len() && is_digit(s[pos]) {
        digit_end(s, pos + 1)
    } else {
        pos
    }
}

/// First position at or after `pos` holding a quote byte, or the end.
pub open spec fn quote_end(s: Seq<u8>, pos: int) -> int
    decreases s.len() - pos when 0 <= pos <= s.len()
{
    if pos < s.len() && s[pos] != '"' as u8 {
        quote_end(s, pos + 1)
    } else {
        pos
    }
}

pub proof fn lemma_skip_ws(s: Seq<u8>, pos: int)
    requires
        0 <= pos <= s.len(),
    ensures
        pos <= skip_ws(s, pos) <= s.len(),
        skip_ws(s, pos) < s.len() ==> !is_ws(s[skip_ws(s, pos)]),
    decreases s.len() - pos,
{
    if pos < s.len() && is_ws(s[pos]) {
        lemma_skip_ws(s, pos + 1);
    }
}

pub proof fn lemma_ident_end(s: Seq<u8>, pos: int)
    requires
        0 <= pos <= s.len(),
    ensures
        pos <= ident_end(s, pos) <= s.len(),
        ident_end(s, pos) < s.len() ==> !is_ident_char(s[ident_end(s, pos)]),
        forall|i: int| pos <= i < ident_end(s, pos) ==> is_ident_char(#[trigger] s[i]),
    decreases s.len() - pos,
{
    if pos < s.len() && is_ident_char(s[pos]) {
        lemma_ident_end(s, pos + 1);
    }
}

pub proof fn lemma_digit_end(s: Seq<u8>, pos: int)
    requires
        0 <= pos <= s.len(),
    ensures
        pos <= digit_end(s, pos) <= s.len(),
        digit_end(s, pos) < s.len() ==> !is_digit(s[digit_end(s, pos)]),
        forall|i: int| pos <= i < digit_end(s, pos) ==> is_digit(#[trigger] s[i]),
    decreases s.len() - pos,
{
    if pos < s.len() && is_digit(s[pos]) {
        lemma_digit_end(s, pos + 1);
    }
}

pub proof fn lemma_quote_end(s: Seq<u8>, pos: int)
    requires
        0 <= pos <= s.len(),
    ensures
        pos <= quote_end(s, pos) <= s.len(),
        quote_end(s, pos) < s.len() ==> s[quote_end(s, pos)] == '"' as u8,
    decreases s.len() - pos,
{
    if pos < s.len() && s[pos] != '"' as u8 {
        lemma_quote_end(s, pos + 1);
    }
}

// ---------------------------------------------------------------------------
// Numeric value of a digit run
// ---------------------------------------------------------------------------

/// The integer written by the decimal digits `s[from..to]`.
pub open spec fn digits_val(s: Seq<u8>, from: int, to: int) -> int
    decreases to - from when from <= to
{
    if from >= to {
        0
    } else {
        digits_val(s, from, to - 1) * 10 + (s[to - 1] - ('0' as u8))
    }
}

pub open spec fn pow10(n: int) -> int
    decreases n when n >= 0
{
    if n <= 0 {
        1
    } else {
        10 * pow10(n - 1)
    }
}

/// The value accumulated by continuing a left-to-right decimal scan of
/// `s[from..to]` from a partial value `start`.
pub open spec fn accum_val(s: Seq<u8>, from: int, to: int, start: int) -> int {
    start * pow10(to - from) + digits_val(s, from, to)
}

pub open spec fn all_digits(s: Seq<u8>, from: int, to: int) -> bool {
    forall|i: int| from <= i < to ==> is_digit(#[trigger] s[i])
}

pub proof fn lemma_digits_val_nonneg(s: Seq<u8>, from: int, to: int)
    requires
        from <= to,
        all_digits(s, from, to),
    ensures
        digits_val(s, from, to) >= 0,
    decreases to - from,
{
    if from < to {
        lemma_digits_val_nonneg(s, from, to - 1);
    }
}

/// One scan step: extending the scanned range by one digit multiplies the
/// partial value by ten and adds the digit.
pub proof fn lemma_accum_step(s: Seq<u8>, from: int, i: int, start: int)
    requires
        from <= i,
    ensures
        accum_val(s, from, i + 1, start) == accum_val(s, from, i, start) * 10 + (s[i] - ('0' as u8)),
{
    assert(pow10(i + 1 - from) == 10 * pow10(i - from));
    assert(digits_val(s, from, i + 1) == digits_val(s, from, i) * 10 + (s[i] - ('0' as u8)));
    assert(start * (10 * pow10(i - from)) == (start * pow10(i - from)) * 10) by (nonlinear_arith);
}

/// A scan that starts from a non-negative partial value never decreases it.
pub proof fn lemma_accum_lower(s: Seq<u8>, from: int, to: int, start: int)
    requires
        from <= to,
        all_digits(s, from, to),
        start >= 0,
    ensures
        accum_val(s, from, to, start) >= start,
        accum_val(s, from, to, start) >= 0,
    decreases to - from,
{
    if from >= to {
        assert(pow10(0) == 1);
    } else {
        lemma_accum_lower(s, from, to - 1, start);
        lemma_accum_step(s, from, to - 1, start);
    }
}

/// A scan can be cut at any midpoint: finishing the scan from the midpoint's
/// partial value yields the full value.
pub proof fn lemma_accum_compose(s: Seq<u8>, from: int, mid: int, to: int, start: int)
    requires
        from <= mid <= to,
    ensures
        accum_val(s, from, to, start) == accum_val(s, mid, to, accum_val(s, from, mid, start)),
    decreases to - mid,
{
    if mid == to {
        assert(pow10(0) == 1);
        assert(digits_val(s, to, to) == 0);
    } else {
        lemma_accum_compose(s, from, mid, to - 1, start);
        lemma_accum_step(s, from, to - 1, start);
        lemma_accum_step(s, mid, to - 1, accum_val(s, from, mid, start));
    }
}

/// Once a scan's partial value has exceeded a bound, the full value exceeds it
/// too.
pub proof fn lemma_accum_exceeds(s: Seq<u8>, from: int, i: int, to: int, start: int, bound: int)
    requires
        from <= i < to,
        all_digits(s, from, to),
        accum_val(s, from, i + 1, start) >= 0,
        accum_val(s, from, i + 1, start) > bound,
    ensures
        accum_val(s, from, to, start) > bound,
{
    lemma_accum_compose(s, from, i + 1, to, start);
    lemma_accum_lower(s, i + 1, to, accum_val(s, from, i + 1, start));
}

/// A plain digit run's value is the scan of that run started from zero.
pub proof fn lemma_digits_val_is_accum(s: Seq<u8>, from: int, to: int)
    requires
        from <= to,
    ensures
        digits_val(s, from, to) == accum_val(s, from, to, 0),
{
}

// ---------------------------------------------------------------------------
// The token grammar
// ---------------------------------------------------------------------------

pub open spec fn parse_err(p: int, kind: ParseErrorKind) -> ParseError {
    ParseError { pos: p as usize, kind }
}

pub open spec fn word_is(s: Seq<u8>, from: int, to: int, w: Seq<u8>) -> bool {
    to - from == w.len() && (forall|i: int| 0 <= i < w.len() ==> s[from + i] == w[i])
}

pub open spec fn kw_true() -> Seq<u8> {
    seq!['t' as u8, 'r' as u8, 'u' as u8, 'e' as u8]
}

pub open spec fn kw_false() -> Seq<u8> {
    seq!['f' as u8, 'a' as u8, 'l' as u8, 's' as u8, 'e' as u8]
}

pub open spec fn kw_id() -> Seq<u8> {
    seq!['i' as u8, 'd' as u8]
}

pub open spec fn kw_label() -> Seq<u8> {
    seq!['l' as u8, 'a' as u8, 'b' as u8, 'e' as u8, 'l' as u8]
}

/// The string literal starting with the quote at `p`: the bytes up to the
/// next quote, which must exist.
pub open spec fn spec_str_token(s: Seq<u8>, p: int) -> Result<(SpecPosToken, int), ParseError> {
    let e = quote_end(s, p + 1);
    if e >= s.len() {
        Result::Err(parse_err(p, ParseErrorKind::MalformedToken))
    } else {
        Result::Ok(
            (
                SpecPosToken {
                    tok: SpecInfixToken::Lit(crate::common::SpecConst::Str(s.subrange(p + 1, e))),
                    pos: p,
                },
                e + 1,
            ),
        )
    }
}

/// The numeric literal starting with the digit at `p`. A run of digits is a
/// 32-bit constant when its value fits, else a 64-bit constant, else an
/// error; a run followed by `.` and at least one more digit is a float
/// constant, carried as an exact decimal.
pub open spec fn spec_num_token(s: Seq<u8>, p: int) -> Result<(SpecPosToken, int), ParseError> {
    let de = digit_end(s, p);
    if de < s.len() && s[de] == '.' as u8 && de + 1 < s.len() && is_digit(s[de + 1]) {
        let fe = digit_end(s, de + 1);
        let frac_len = fe - (de + 1);
        let m = digits_val(s, p, de) * pow10(frac_len) + digits_val(s, de + 1, fe);
        if m > i64::MAX || frac_len > i32::MAX {
            Result::Err(parse_err(p, ParseErrorKind::MalformedToken))
        } else {
            Result::Ok(
                (
                    SpecPosToken {
                        tok: SpecInfixToken::Lit(
                            crate::common::SpecConst::F64(
                                DecimalF64 { mantissa: m as i64, exp10: (-frac_len) as i32 },
                            ),
                        ),
                        pos: p,
                    },
                    fe,
                ),
            )
        }
    } else {
        let v = digits_val(s, p, de);
        if v > i64::MAX {
            Result::Err(parse_err(p, ParseErrorKind::MalformedToken))
        } else if v <= i32::MAX {
            Result::Ok(
                (
                    SpecPosToken {
                        tok: SpecInfixToken::Lit(crate::common::SpecConst::I32(v as i32)),
                        pos: p,
                    },
                    de,
                ),
            )
        } else {
            Result::Ok(
                (
                    SpecPosToken {
                        tok: SpecInfixToken::Lit(crate::common::SpecConst::I64(v as i64)),
                        pos: p,
                    },
                    de,
                ),
            )
        }
    }
}

/// The property accessor that may follow a variable's tag at `tpos`: nothing,
/// or `.` followed by `id`, `label`, a key name, or a numeric key id.
pub open spec fn spec_var_prop(s: Seq<u8>, p: int, tag: SpecNameOrId, tpos: int) -> Result<
    (SpecPosToken, int),
    ParseError,
> {
    if tpos < s.len() && s[tpos] == '.' as u8 {
        let r = tpos + 1;
        if r < s.len() && is_ident_start(s[r]) {
            let pe = ident_end(s, r);
            let prop = if word_is(s, r, pe, kw_id()) {
                SpecProperty::Id
            } else if word_is(s, r, pe, kw_label()) {
                SpecProperty::Label
            } else {
                SpecProperty::Key(SpecNameOrId::Name(s.subrange(r, pe)))
            };
            Result::Ok(
                (
                    SpecPosToken {
                        tok: SpecInfixToken::Var(
                            SpecVariable { tag, property: Option::Some(prop) },
                        ),
                        pos: p,
                    },
                    pe,
                ),
            )
        } else if r < s.len() && is_digit(s[r]) {
            let pe = digit_end(s, r);
            let v = digits_val(s, r, pe);
            if v > i32::MAX {
                Result::Err(parse_err(r, ParseErrorKind::MalformedToken))
            } else {
                Result::Ok(
                    (
                        SpecPosToken {
                            tok: SpecInfixToken::Var(
                                SpecVariable {
                                    tag,
                                    property: Option::Some(
                                        SpecProperty::Key(SpecNameOrId::Id(v as i32)),
                                    ),
                                },
                            ),
                            pos: p,
                        },
                        pe,
                    ),
                )
            }
        } else {
            Result::Err(parse_err(tpos, ParseErrorKind::MalformedToken))
        }
    } else {
        Result::Ok(
            (
                SpecPosToken {
                    tok: SpecInfixToken::Var(SpecVariable { tag, property: Option::None }),
                    pos: p,
                },
                tpos,
            ),
        )
    }
}

/// The variable reference starting with the `@` at `p`: a tag that is an
/// identifier or a numeric id, then an optional property accessor.
pub open spec fn spec_var_token(s: Seq<u8>, p: int) -> Result<(SpecPosToken, int), ParseError> {
    let q = p + 1;
    if q < s.len() && is_ident_start(s[q]) {
        let te = ident_end(s, q);
        spec_var_prop(s, p, SpecNameOrId::Name(s.subrange(q, te)), te)
    } else if q < s.len() && is_digit(s[q]) {
        let te = digit_end(s, q);
        let v = digits_val(s, q, te);
        if v > i32::MAX {
            Result::Err(parse_err(q, ParseErrorKind::MalformedToken))
        } else {
            spec_var_prop(s, p, SpecNameOrId::Id(v as i32), te)
        }
    } else {
        Result::Err(parse_err(p, ParseErrorKind::MalformedToken))
    }
}

/// The bare word starting at `p`: only the boolean literals are words of the
/// grammar.
pub open spec fn spec_word_token(s: Seq<u8>, p: int) -> Result<(SpecPosToken, int), ParseError> {
    let e = ident_end(s, p);
    if word_is(s, p, e, kw_true()) {
        Result::Ok(
            (
                SpecPosToken {
                    tok: SpecInfixToken::Lit(crate::common::SpecConst::Boolean(true)),
                    pos: p,
                },
                e,
            ),
        )
    } else if word_is(s, p, e, kw_false()) {
        Result::Ok(
            (
                SpecPosToken {
                    tok: SpecInfixToken::Lit(crate::common::SpecConst::Boolean(false)),
                    pos: p,
                },
                e,
            ),
        )
    } else {
        Result::Err(parse_err(p, ParseErrorKind::UnknownToken))
    }
}

pub open spec fn opr_token(o: ExprOpr, p: int, end: int) -> Result<
    (SpecPosToken, int),
    ParseError,
> {
    Result::Ok((SpecPosToken { tok: SpecInfixToken::Opr(o), pos: p }, end))
}

/// The token starting at the non-whitespace position `p`.
pub open spec fn spec_token_at(s: Seq<u8>, p: int) -> Result<(SpecPosToken, int), ParseError>
    recommends
        0 <= p < s.len(),
{
    let b = s[p];
    if b == '(' as u8 {
        Result::Ok((SpecPosToken { tok: SpecInfixToken::LParen, pos: p }, p + 1))
    } else if b == ')' as u8 {
        Result::Ok((SpecPosToken { tok: SpecInfixToken::RParen, pos: p }, p + 1))
    } else if b == '+' as u8 {
        opr_token(ExprOpr::Add, p, p + 1)
    } else if b == '-' as u8 {
        opr_token(ExprOpr::Sub, p, p + 1)
    } else if b == '*' as u8 {
        opr_token(ExprOpr::Mul, p, p + 1)
    } else if b == '/' as u8 {
        opr_token(ExprOpr::Div, p, p + 1)
    } else if b == '&' as u8 {
        if p + 1 < s.len() && s[p + 1] == '&' as u8 {
            opr_token(ExprOpr::And, p, p + 2)
        } else {
            Result::Err(parse_err(p, ParseErrorKind::MalformedToken))
        }
    } else if b == '|' as u8 {
        if p + 1 < s.len() && s[p + 1] == '|' as u8 {
            opr_token(ExprOpr::Or, p, p + 2)
        } else {
            Result::Err(parse_err(p, ParseErrorKind::MalformedToken))
        }
    } else if b == '!' as u8 {
        if p + 1 < s.len() && s[p + 1] == '=' as u8 {
            opr_token(ExprOpr::Ne, p, p + 2)
        } else {
            opr_token(ExprOpr::Not, p, p + 1)
        }
    } else if b == '=' as u8 {
        if p + 1 < s.len() && s[p + 1] == '=' as u8 {
            opr_token(ExprOpr::Eq, p, p + 2)
        } else {
            Result::Err(parse_err(p, ParseErrorKind::MalformedToken))
        }
    } else if b == '<' as u8 {
        if p + 1 < s.len() && s[p + 1] == '=' as u8 {
            opr_token(ExprOpr::Le, p, p + 2)
        } else {
            opr_token(ExprOpr::Lt, p, p + 1)
        }
    } else if b == '>' as u8 {
        if p + 1 < s.len() && s[p + 1] == '=' as u8 {
            opr_token(ExprOpr::Ge, p, p + 2)
        } else {
            opr_token(ExprOpr::Gt, p, p + 1)
        }
    } else if b == '"' as u8 {
        spec_str_token(s, p)
    } else if is_digit(b) {
        spec_num_token(s, p)
    } else if b == '@' as u8 {
        spec_var_token(s, p)
    } else if is_ident_start(b) {
        spec_word_token(s, p)
    } else {
        Result::Err(parse_err(p, ParseErrorKind::UnknownToken))
    }
}

/// The next token at or after `pos`, skipping whitespace; `None` at the end
/// of the text.
pub open spec fn spec_next_token(s: Seq<u8>, pos: int) -> Result<
    Option<(SpecPosToken, int)>,
    ParseError,
> {
    let p = skip_ws(s, pos);
    if p >= s.len() {
        Result::Ok(Option::None)
    } else {
        match spec_token_at(s, p) {
            Result::Ok(tp) => Result::Ok(Option::Some(tp)),
            Result::Err(e) => Result::Err(e),
        }
    }
}

/// Every token yielded at a position strictly advances the scan and stays in
/// bounds, and carries the position it started at; hence the fallback branch
/// of `spec_tokenize_from` is never taken.
pub proof fn lemma_token_at_advances(s: Seq<u8>, p: int)
    requires
        0 <= p < s.len(),
    ensures
        spec_token_at(s, p) matches Result::Ok(tp) ==> p < tp.1 <= s.len() && tp.0.pos == p,
{
    let b = s[p];
    if b == '"' as u8 {
        lemma_quote_end(s, p + 1);
    } else if is_digit(b) {
        lemma_digit_end(s, p);
        if digit_end(s, p) < s.len() && s[digit_end(s, p)] == '.' as u8 && digit_end(s, p) + 1 < s.len()
            && is_digit(s[digit_end(s, p) + 1]) {
            lemma_digit_end(s, digit_end(s, p) + 1);
        }
    } else if b == '@' as u8 {
        let q = p + 1;
        if q < s.len() && is_ident_start(s[q]) {
            lemma_ident_end(s, q);
            lemma_var_prop_advances(s, p, SpecNameOrId::Name(s.subrange(q, ident_end(s, q))),
                ident_end(s, q));
        } else if q < s.len() && is_digit(s[q]) {
            lemma_digit_end(s, q);
            let v = digits_val(s, q, digit_end(s, q));
            if v <= i32::MAX {
                lemma_var_prop_advances(s, p, SpecNameOrId::Id(v as i32), digit_end(s, q));
            }
        }
    } else if is_ident_start(b) {
        lemma_ident_end(s, p);
        let e = ident_end(s, p);
        if word_is(s, p, e, kw_true()) || word_is(s, p, e, kw_false()) {
            assert(e - p >= 2);
        }
    }
}

proof fn lemma_var_prop_advances(s: Seq<u8>, p: int, tag: SpecNameOrId, tpos: int)
    requires
        0 <= p < tpos <= s.len(),
    ensures
        spec_var_prop(s, p, tag, tpos) matches Result::Ok(tp) ==> p < tp.1 <= s.len() && tp.0.pos
            == p,
{
    if tpos < s.len() && s[tpos] == '.' as u8 {
        let r = tpos + 1;
        if r < s.len() && is_ident_start(s[r]) {
            lemma_ident_end(s, r);
        } else if r < s.len() && is_digit(s[r]) {
            lemma_digit_end(s, r);
        }
    }
}

/// The whole token stream of the text from `pos` on.
pub open spec fn spec_tokenize_from(s: Seq<u8>, pos: int) -> Result<Seq<SpecPosToken>, ParseError>
    decreases s.len() - pos when 0 <= pos <= s.len()
{
    match spec_next_token(s, pos) {
        Result::Err(e) => Result::Err(e),
        Result::Ok(Option::None) => Result::Ok(Seq::empty()),
        Result::Ok(Option::Some((t, p2))) => if pos < p2 <= s.len() {
            match spec_tokenize_from(s, p2) {
                Result::Err(e) => Result::Err(e),
                Result::Ok(rest) => Result::Ok(seq![t] + rest),
            }
        } else {
            // never taken: a yielded token advances the scan (lemma_token_at_advances)
            Result::Err(parse_err(pos, ParseErrorKind::UnknownToken))
        },
    }
}

// ---------------------------------------------------------------------------
// The executable scanner
// ---------------------------------------------------------------------------

fn ws_byte(b: u8) -> (r: bool)
    ensures
        r == is_ws(b),
{
    b == ' ' as u8 || b == '\t' as u8 || b == '\n' as u8 || b == '\r' as u8
}

fn digit_byte(b: u8) -> (r: bool)
    ensures
        r == is_digit(b),
{
    '0' as u8 <= b && b <= '9' as u8
}

fn ident_start_byte(b: u8) -> (r: bool)
    ensures
        r == is_ident_start(b),
{
    ('a' as u8 <= b && b <= 'z' as u8) || ('A' as u8 <= b && b <= 'Z' as u8) || b == '_' as u8
}

fn ident_char_byte(b: u8) -> (r: bool)
    ensures
        r == is_ident_char(b),
{
    ident_start_byte(b) || digit_byte(b)
}

fn scan_ws(s: &[u8], from: usize) -> (r: usize)
    requires
        from <= s@.len(),
    ensures
        r == skip_ws(s@, from as int),
        from <= r <= s@.len(),
{
    let mut i: usize = from;
    while i < s.len() && ws_byte(s[i])
        invariant
            from <= i <= s@.len(),
            skip_ws(s@, from as int) == skip_ws(s@, i as int),
        decreases s@.len() - i,
    {
        i = i + 1;
    }
    i
}

fn scan_ident(s: &[u8], from: usize) -> (r: usize)
    requires
        from <= s@.len(),
    ensures
        r == ident_end(s@, from as int),
        from <= r <= s@.len(),
{
    let mut i: usize = from;
    while i < s.len() && ident_char_byte(s[i])
        invariant
            from <= i <= s@.len(),
            ident_end(s@, from as int) == ident_end(s@, i as int),
        decreases s@.len() - i,
    {
        i = i + 1;
    }
    i
}

fn scan_digits(s: &[u8], from: usize) -> (r: usize)
    requires
        from <= s@.len(),
    ensures
        r == digit_end(s@, from as int),
        from <= r <= s@.len(),
{
    let mut i: usize = from;
    while i < s.len() && digit_byte(s[i])
        invariant
            from <= i <= s@.len(),
            digit_end(s@, from as int) == digit_end(s@, i as int),
        decreases s@.len() - i,
    {
        i = i + 1;
    }
    i
}

fn scan_quote(s: &[u8], from: usize) -> (r: usize)
    requires
        from <= s@.len(),
    ensures
        r == quote_end(s@, from as int),
        from <= r <= s@.len(),
{
    let mut i: usize = from;
    while i < s.len() && s[i] != '"' as u8
        invariant
            from <= i <= s@.len(),
            quote_end(s@, from as int) == quote_end(s@, i as int),
        decreases s@.len() - i,
    {
        i = i + 1;
    }
    i
}

/// Copy the bytes `s[from..to]` out of the text.
fn bytes_of(s: &[u8], from: usize, to: usize) -> (r: Vec<u8>)
    requires
        from <= to <= s@.len(),
    ensures
        r@ == s@.subrange(from as int, to as int),
{
    let sub = vstd::slice::slice_subrange(s, from, to);
    vstd::slice::slice_to_vec(sub)
}

/// Continue a decimal scan of the digits `s[from..to]` from the partial
/// value `start`; `None` exactly when the full value overflows an `i64`.
fn accum_digits(s: &[u8], from: usize, to: usize, start: i64) -> (r: Option<i64>)
    requires
        from <= to <= s@.len(),
        all_digits(s@, from as int, to as int),
        0 <= start,
    ensures
        match r {
            Option::Some(v) => 0 <= v && v as int == accum_val(
                s@,
                from as int,
                to as int,
                start as int,
            ),
            Option::None => accum_val(s@, from as int, to as int, start as int) > i64::MAX,
        },
{
    let mut acc: i64 = start;
    let mut i: usize = from;
    proof {
        assert(pow10(0) == 1);
    }
    while i < to
        invariant
            from <= i <= to <= s@.len(),
            all_digits(s@, from as int, to as int),
            0 <= acc,
            acc as int == accum_val(s@, from as int, i as int, start as int),
        decreases to - i,
    {
        assert(is_digit(s@[i as int]));
        let d: u8 = s[i] - ('0' as u8);
        let dm: i64 = (i64::MAX - (d as i64)) / 10;
        proof {
            lemma_accum_step(s@, from as int, i as int, start as int);
        }
        if acc > dm {
            proof {
                let m: int = i64::MAX - d;
                assert((m / 10) * 10 + m % 10 == m);
                assert(acc as int * 10 >= (m / 10) * 10 + 10);
                assert(acc as int * 10 + d > i64::MAX);
                lemma_accum_exceeds(
                    s@,
                    from as int,
                    i as int,
                    to as int,
                    start as int,
                    i64::MAX as int,
                );
            }
            return Option::None;
        }
        proof {
            let m: int = i64::MAX - d;
            assert((m / 10) * 10 + m % 10 == m);
            assert(acc as int * 10 <= (m / 10) * 10);
        }
        acc = acc * 10 + (d as i64);
        i = i + 1;
    }
    Option::Some(acc)
}

/// Scan the numeric literal starting with the digit at `p`.
fn num_token(s: &[u8], p: usize) -> (r: Result<(PosToken, usize), ParseError>)
    requires
        p < s@.len(),
        is_digit(s@[p as int]),
    ensures
        match r {
            Result::Ok(tp) => spec_num_token(s@, p as int) == Result::<
                (SpecPosToken, int),
                ParseError,
            >::Ok((tp.0@, tp.1 as int)) && p < tp.1 <= s@.len(),
            Result::Err(e) => spec_num_token(s@, p as int) == Result::<
                (SpecPosToken, int),
                ParseError,
            >::Err(e),
        },
{
    let de = scan_digits(s, p);
    proof {
        lemma_digit_end(s@, p as int);
        lemma_digits_val_is_accum(s@, p as int, de as int);
    }
    if de < s.len() && s[de] == '.' as u8 && de + 1 < s.len() && digit_byte(s[de + 1]) {
        let fe = scan_digits(s, de + 1);
        proof {
            lemma_digit_end(s@, de + 1);
        }
        let iv_opt = accum_digits(s, p, de, 0);
        match iv_opt {
            Option::None => {
                proof {
                    // the integer part alone overflows, so the mantissa does
                    lemma_digits_val_nonneg(s@, p as int, de as int);
                    lemma_accum_lower(
                        s@,
                        de + 1,
                        fe as int,
                        digits_val(s@, p as int, de as int),
                    );
                }
                Result::Err(ParseError { pos: p, kind: ParseErrorKind::MalformedToken })
            },
            Option::Some(iv) => {
                match accum_digits(s, de + 1, fe, iv) {
                    Option::None => Result::Err(
                        ParseError { pos: p, kind: ParseErrorKind::MalformedToken },
                    ),
                    Option::Some(m) => {
                        let frac_len = fe - (de + 1);
                        if frac_len > i32::MAX as usize {
                            Result::Err(
                                ParseError { pos: p, kind: ParseErrorKind::MalformedToken },
                            )
                        } else {
                            let tok = PosToken {
                                tok: InfixToken::Lit(
                                    Const::F64(
                                        DecimalF64 {
                                            mantissa: m,
                                            exp10: -(frac_len as i32),
                                        },
                                    ),
                                ),
                                pos: p,
                            };
                            Result::Ok((tok, fe))
                        }
                    },
                }
            },
        }
    } else {
        match accum_digits(s, p, de, 0) {
            Option::None => Result::Err(
                ParseError { pos: p, kind: ParseErrorKind::MalformedToken },
            ),
            Option::Some(v) => {
                if v <= i32::MAX as i64 {
                    let tok = PosToken {
                        tok: InfixToken::Lit(Const::I32(v as i32)),
                        pos: p,
                    };
                    Result::Ok((tok, de))
                } else {
                    let tok = PosToken {
                        tok: InfixToken::Lit(Const::I64(v)),
                        pos: p,
                    };
                    Result::Ok((tok, de))
                }
            },
        }
    }
}

/// Does `s[from..to]` spell exactly the word `w`?
fn word_eq(s: &[u8], from: usize, to: usize, w: &[u8]) -> (r: bool)
    requires
        from <= to <= s@.len(),
    ensures
        r == word_is(s@, from as int, to as int, w@),
{
    if to - from != w.len() {
        proof {
            assert(!word_is(s@, from as int, to as int, w@));
        }
        return false;
    }
    let mut i: usize = 0;
    while i < w.len()
        invariant
            from <= to <= s@.len(),
            to - from == w@.len(),
            i <= w@.len(),
            forall|j: int| 0 <= j < i ==> s@[from + j] == w@[j],
        decreases w@.len() - i,
    {
        if s[from + i] != w[i] {
            return false;
        }
        i = i + 1;
    }
    true
}

/// Scan the variable reference starting with the `@` at `p`.
fn var_token(s: &[u8], p: usize) -> (r: Result<(PosToken, usize), ParseError>)
    requires
        p < s@.len(),
        s@[p as int] == '@' as u8,
    ensures
        match r {
            Result::Ok(tp) => spec_var_token(s@, p as int) == Result::<
                (SpecPosToken, int),
                ParseError,
            >::Ok((tp.0@, tp.1 as int)) && p < tp.1 <= s@.len(),
            Result::Err(e) => spec_var_token(s@, p as int) == Result::<
                (SpecPosToken, int),
                ParseError,
            >::Err(e),
        },
{
    let n = s.len();
    assert(p < n);
    let q = p + 1;
    if q < s.len() && ident_start_byte(s[q]) {
        let te = scan_ident(s, q);
        proof {
            lemma_ident_end(s@, q as int);
        }
        let tag = NameOrId::Name(bytes_of(s, q, te));
        var_prop(s, p, tag, te)
    } else if q < s.len() && digit_byte(s[q]) {
        let te = scan_digits(s, q);
        proof {
            lemma_digit_end(s@, q as int);
            lemma_digits_val_is_accum(s@, q as int, te as int);
        }
        match accum_digits(s, q, te, 0) {
            Option::None => Result::Err(
                ParseError { pos: q, kind: ParseErrorKind::MalformedToken },
            ),
            Option::Some(v) => {
                if v > i32::MAX as i64 {
                    Result::Err(ParseError { pos: q, kind: ParseErrorKind::MalformedToken })
                } else {
                    var_prop(s, p, NameOrId::Id(v as i32), te)
                }
            },
        }
    } else {
        Result::Err(ParseError { pos: p, kind: ParseErrorKind::MalformedToken })
    }
}

/// Scan the optional property accessor after a variable's tag.
fn var_prop(s: &[u8], p: usize, tag: NameOrId, tpos: usize) -> (r: Result<
    (PosToken, usize),
    ParseError,
>)
    requires
        p < tpos <= s@.len(),
    ensures
        match r {
            Result::Ok(tp) => spec_var_prop(s@, p as int, tag@, tpos as int) == Result::<
                (SpecPosToken, int),
                ParseError,
            >::Ok((tp.0@, tp.1 as int)) && p < tp.1 <= s@.len(),
            Result::Err(e) => spec_var_prop(s@, p as int, tag@, tpos as int) == Result::<
                (SpecPosToken, int),
                ParseError,
            >::Err(e),
        },
{
    if tpos < s.len() && s[tpos] == '.' as u8 {
        let rp = tpos + 1;
        if rp < s.len() && ident_start_byte(s[rp]) {
            let pe = scan_ident(s, rp);
            proof {
                lemma_ident_end(s@, rp as int);
            }
            let id_w: [u8; 2] = ['i' as u8, 'd' as u8];
            let label_w: [u8; 5] = ['l' as u8, 'a' as u8, 'b' as u8, 'e' as u8, 'l' as u8];
            proof {
                assert(id_w@ =~= kw_id());
                assert(label_w@ =~= kw_label());
            }
            let prop = if word_eq(s, rp, pe, id_w.as_slice()) {
                Property::Id
            } else if word_eq(s, rp, pe, label_w.as_slice()) {
                Property::Label
            } else {
                Property::Key(NameOrId::Name(bytes_of(s, rp, pe)))
            };
            let tok = PosToken {
                tok: InfixToken::Var(Variable { tag, property: Option::Some(prop) }),
                pos: p,
            };
            Result::Ok((tok, pe))
        } else if rp < s.len() && digit_byte(s[rp]) {
            let pe = scan_digits(s, rp);
            proof {
                lemma_digit_end(s@, rp as int);
                lemma_digits_val_is_accum(s@, rp as int, pe as int);
            }
            match accum_digits(s, rp, pe, 0) {
                Option::None => Result::Err(
                    ParseError { pos: rp, kind: ParseErrorKind::MalformedToken },
                ),
                Option::Some(v) => {
                    if v > i32::MAX as i64 {
                        Result::Err(ParseError { pos: rp, kind: ParseErrorKind::MalformedToken })
                    } else {
                        let tok = PosToken {
                            tok: InfixToken::Var(
                                Variable {
                                    tag,
                                    property: Option::Some(Property::Key(NameOrId::Id(v as i32))),
                                },
                            ),
                            pos: p,
                        };
                        Result::Ok((tok, pe))
                    }
                },
            }
        } else {
            Result::Err(ParseError { pos: tpos, kind: ParseErrorKind::MalformedToken })
        }
    } else {
        let tok = PosToken {
            tok: InfixToken::Var(Variable { tag, property: Option::None }),
            pos: p,
        };
        Result::Ok((tok, tpos))
    }
}

/// Scan the token starting at the non-whitespace position `p`.
fn token_at(s: &[u8], p: usize) -> (r: Result<(PosToken, usize), ParseError>)
    requires
        p < s@.len(),
    ensures
        match r {
            Result::Ok(tp) => spec_token_at(s@, p as int) == Result::<
                (SpecPosToken, int),
                ParseError,
            >::Ok((tp.0@, tp.1 as int)) && p < tp.1 <= s@.len(),
            Result::Err(e) => spec_token_at(s@, p as int) == Result::<
                (SpecPosToken, int),
                ParseError,
            >::Err(e),
        },
{
    let b = s[p];
    if b == '(' as u8 {
        Result::Ok((PosToken { tok: InfixToken::LParen, pos: p }, p + 1))
    } else if b == ')' as u8 {
        Result::Ok((PosToken { tok: InfixToken::RParen, pos: p }, p + 1))
    } else if b == '+' as u8 {
        Result::Ok((PosToken { tok: InfixToken::Opr(ExprOpr::Add), pos: p }, p + 1))
    } else if b == '-' as u8 {
        Result::Ok((PosToken { tok: InfixToken::Opr(ExprOpr::Sub), pos: p }, p + 1))
    } else if b == '*' as u8 {
        Result::Ok((PosToken { tok: InfixToken::Opr(ExprOpr::Mul), pos: p }, p + 1))
    } else if b == '/' as u8 {
        Result::Ok((PosToken { tok: InfixToken::Opr(ExprOpr::Div), pos: p }, p + 1))
    } else if b == '&' as u8 {
        if p + 1 < s.len() && s[p + 1] == '&' as u8 {
            Result::Ok((PosToken { tok: InfixToken::Opr(ExprOpr::And), pos: p }, p + 2))
        } else {
            Result::Err(ParseError { pos: p, kind: ParseErrorKind::MalformedToken })
        }
    } else if b == '|' as u8 {
        if p + 1 < s.len() && s[p + 1] == '|' as u8 {
            Result::Ok((PosToken { tok: InfixToken::Opr(ExprOpr::Or), pos: p }, p + 2))
        } else {
            Result::Err(ParseError { pos: p, kind: ParseErrorKind::MalformedToken })
        }
    } else if b == '!' as u8 {
        if p + 1 < s.len() && s[p + 1] == '=' as u8 {
            Result::Ok((PosToken { tok: InfixToken::Opr(ExprOpr::Ne), pos: p }, p + 2))
        } else {
            Result::Ok((PosToken { tok: InfixToken::Opr(ExprOpr::Not), pos: p }, p + 1))
        }
    } else if b == '=' as u8 {
        if p + 1 < s.len() && s[p + 1] == '=' as u8 {
            Result::Ok((PosToken { tok: InfixToken::Opr(ExprOpr::Eq), pos: p }, p + 2))
        } else {
            Result::Err(ParseError { pos: p, kind: ParseErrorKind::MalformedToken })
        }
    } else if b == '<' as u8 {
        if p + 1 < s.len() && s[p + 1] == '=' as u8 {
            Result::Ok((PosToken { tok: InfixToken::Opr(ExprOpr::Le), pos: p }, p + 2))
        } else {
            Result::Ok((PosToken { tok: InfixToken::Opr(ExprOpr::Lt), pos: p }, p + 1))
        }
    } else if b == '>' as u8 {
        if p + 1 < s.len() && s[p + 1] == '=' as u8 {
            Result::Ok((PosToken { tok: InfixToken::Opr(ExprOpr::Ge), pos: p }, p + 2))
        } else {
            Result::Ok((PosToken { tok: InfixToken::Opr(ExprOpr::Gt), pos: p }, p + 1))
        }
    } else if b == '"' as u8 {
        let e = scan_quote(s, p + 1);
        proof {
            lemma_quote_end(s@, p + 1);
        }
        if e >= s.len() {
            Result::Err(ParseError { pos: p, kind: ParseErrorKind::MalformedToken })
        } else {
            let tok = PosToken {
                tok: InfixToken::Lit(Const::Str(bytes_of(s, p + 1, e))),
                pos: p,
            };
            Result::Ok((tok, e + 1))
        }
    } else if digit_byte(b) {
        num_token(s, p)
    } else if b == '@' as u8 {
        var_token(s, p)
    } else if ident_start_byte(b) {
        let e = scan_ident(s, p);
        proof {
            lemma_ident_end(s@, p as int);
        }
        let true_w: [u8; 4] = ['t' as u8, 'r' as u8, 'u' as u8, 'e' as u8];
        let false_w: [u8; 5] = ['f' as u8, 'a' as u8, 'l' as u8, 's' as u8, 'e' as u8];
        proof {
            assert(true_w@ =~= kw_true());
            assert(false_w@ =~= kw_false());
        }
        if word_eq(s, p, e, true_w.as_slice()) {
            let tok = PosToken { tok: InfixToken::Lit(Const::Boolean(true)), pos: p };
            Result::Ok((tok, e))
        } else if word_eq(s, p, e, false_w.as_slice()) {
            let tok = PosToken { tok: InfixToken::Lit(Const::Boolean(false)), pos: p };
            Result::Ok((tok, e))
        } else {
            Result::Err(ParseError { pos: p, kind: ParseErrorKind::UnknownToken })
        }
    } else {
        Result::Err(ParseError { pos: p, kind: ParseErrorKind::UnknownToken })
    }
}

/// Scan the whole text into its infix token stream.
pub fn tokenize(s: &[u8]) -> (r: Result<Vec<PosToken>, ParseError>)
    ensures
        match r {
            Result::Ok(ts) => spec_tokenize_from(s@, 0) == Result::<
                Seq<SpecPosToken>,
                ParseError,
            >::Ok(ts.deep_view()),
            Result::Err(e) => spec_tokenize_from(s@, 0) == Result::<
                Seq<SpecPosToken>,
                ParseError,
            >::Err(e),
        },
{
    let mut acc: Vec<PosToken> = Vec::new();
    let mut pos: usize = 0;
    proof {
        assert(acc.deep_view() =~= Seq::<SpecPosToken>::empty());
    }
    loop
        invariant
            pos <= s@.len(),
            spec_tokenize_from(s@, 0) == (match spec_tokenize_from(s@, pos as int) {
                Result::Ok(rest) => Result::<Seq<SpecPosToken>, ParseError>::Ok(
                    acc.deep_view() + rest,
                ),
                Result::Err(e) => Result::<Seq<SpecPosToken>, ParseError>::Err(e),
            }),
        decreases s@.len() - pos,
    {
        let p = scan_ws(s, pos);
        proof {
            lemma_skip_ws(s@, pos as int);
        }
        if p >= s.len() {
            proof {
                assert(spec_tokenize_from(s@, pos as int) == Result::<
                    Seq<SpecPosToken>,
                    ParseError,
                >::Ok(Seq::empty()));
                assert(acc.deep_view() + Seq::<SpecPosToken>::empty() =~= acc.deep_view());
            }
            return Result::Ok(acc);
        }
        match token_at(s, p) {
            Result::Err(e) => {
                return Result::Err(e);
            },
            Result::Ok((t, p2)) => {
                let ghost old_acc = acc.deep_view();
                let ghost tv = t@;
                acc.push(t);
                proof {
                    assert(acc.deep_view() =~= old_acc.push(tv));
                    let tail = spec_tokenize_from(s@, p2 as int);
                    assert(spec_tokenize_from(s@, pos as int) == (match tail {
                        Result::Ok(rest) => Result::<Seq<SpecPosToken>, ParseError>::Ok(
                            seq![tv] + rest,
                        ),
                        Result::Err(e) => Result::<Seq<SpecPosToken>, ParseError>::Err(e),
                    }));
                    if tail is Ok {
                        assert(old_acc + (seq![tv] + tail->Ok_0) =~= acc.deep_view()
                            + tail->Ok_0);
                    }
                }
                pos = p2;
            },
        }
    }
}

} // verus!
