//! Token shapes of the expression sub-language: infix tokens as the lexer
//! produces them, postfix tokens as the compiler emits them, and the
//! precedence table of the operators.

use vstd::prelude::*;
use crate::common::{Const, SpecConst, SpecVariable, Variable};

verus! {

/// An operator of the expression grammar. All are binary and left-associative
/// except `Not`, which is unary, prefix and binds tightest.
#[derive(Debug, Clone, Copy, PartialEq, Eq, Structural)]
pub enum ExprOpr {
    Add,
    Sub,
    Mul,
    Div,
    Eq,
    Ne,
    Lt,
    Le,
    Gt,
    Ge,
    And,
    Or,
    Not,
}

/// Binding strength of an operator: higher binds tighter.
pub open spec fn prec(op: ExprOpr) -> int {
    match op {
        ExprOpr::Or => 1,
        ExprOpr::And => 2,
        ExprOpr::Eq => 3,
        ExprOpr::Ne => 3,
        ExprOpr::Lt => 3,
        ExprOpr::Le => 3,
        ExprOpr::Gt => 3,
        ExprOpr::Ge => 3,
        ExprOpr::Add => 4,
        ExprOpr::Sub => 4,
        ExprOpr::Mul => 5,
        ExprOpr::Div => 5,
        ExprOpr::Not => 6,
    }
}

/// Whether the operator takes two operands.
pub open spec fn is_binary(op: ExprOpr) -> bool {
    op != ExprOpr::Not
}

/// One element of a compiled postfix sequence: an operand or an operator.
#[derive(Debug, Clone, PartialEq, Eq)]
pub enum ExprToken {
    Var(Variable),
    Lit(Const),
    Opr(ExprOpr),
}

/// Mathematical model of an `ExprToken`.
pub enum SpecExprToken {
    Var(SpecVariable),
    Lit(SpecConst),
    Opr(ExprOpr),
}

impl View for ExprToken {
    type V = SpecExprToken;

    open spec fn view(&self) -> SpecExprToken {
        match self {
            ExprToken::Var(v) => SpecExprToken::Var(v@),
            ExprToken::Lit(c) => SpecExprToken::Lit(c@),
            ExprToken::Opr(o) => SpecExprToken::Opr(*o),
        }
    }
}

impl DeepView for ExprToken {
    type V = SpecExprToken;

    open spec fn deep_view(&self) -> SpecExprToken {
        self.view()
    }
}

/// One token of the infix source text, before conversion to postfix order.
#[derive(Debug, Clone, PartialEq, Eq)]
pub enum InfixToken {
    Var(Variable),
    Lit(Const),
    Opr(ExprOpr),
    LParen,
    RParen,
}

/// Mathematical model of an `InfixToken`.
pub enum SpecInfixToken {
    Var(SpecVariable),
    Lit(SpecConst),
    Opr(ExprOpr),
    LParen,
    RParen,
}

impl View for InfixToken {
    type V = SpecInfixToken;

    open spec fn view(&self) -> SpecInfixToken {
        match self {
            InfixToken::Var(v) => SpecInfixToken::Var(v@),
            InfixToken::Lit(c) => SpecInfixToken::Lit(c@),
            InfixToken::Opr(o) => SpecInfixToken::Opr(*o),
            InfixToken::LParen => SpecInfixToken::LParen,
            InfixToken::RParen => SpecInfixToken::RParen,
        }
    }
}

impl DeepView for InfixToken {
    type V = SpecInfixToken;

    open spec fn deep_view(&self) -> SpecInfixToken {
        self.view()
    }
}

/// An infix token together with the byte position where it starts, kept for
/// error reporting.
#[derive(Debug, Clone, PartialEq, Eq)]
pub struct PosToken {
    pub tok: InfixToken,
    pub pos: usize,
}

/// Mathematical model of a `PosToken`.
pub struct SpecPosToken {
    pub tok: SpecInfixToken,
    pub pos: int,
}

impl View for PosToken {
    type V = SpecPosToken;

    open spec fn view(&self) -> SpecPosToken {
        SpecPosToken { tok: self.tok@, pos: self.pos as int }
    }
}

impl DeepView for PosToken {
    type V = SpecPosToken;

    open spec fn deep_view(&self) -> SpecPosToken {
        self.view()
    }
}

/// A compiled expression: its tokens stand in postfix (suffix) order, ready
/// for a stack-machine evaluator.
#[derive(Debug, Clone, PartialEq, Eq)]
pub struct SuffixExpr {
    pub tokens: Vec<ExprToken>,
}

impl View for SuffixExpr {
    type V = Seq<SpecExprToken>;

    open spec fn view(&self) -> Seq<SpecExprToken> {
        self.tokens.deep_view()
    }
}

impl DeepView for SuffixExpr {
    type V = Seq<SpecExprToken>;

    open spec fn deep_view(&self) -> Seq<SpecExprToken> {
        self.view()
    }
}

/// The view of an optional compiled expression.
pub open spec fn opt_expr_view(x: Option<SuffixExpr>) -> Option<Seq<SpecExprToken>> {
    match x {
        Option::Some(e) => Option::Some(e@),
        Option::None => Option::None,
    }
}

} // verus!
