//! Lexical tokens: the intermediate units produced by the tokenizer and
//! progressively collapsed by the reduction parser. A token may embed an
//! already-reduced expression.

use vstd::prelude::*;

use crate::expr::{expr_eqv, Expr};

verus! {

/// One lexical token: an embedded expression, a pending function name,
/// a parenthesis, or one of the five binary operator symbols.
#[derive(Debug)]
pub enum SubExpr {
    S(Expr),
    F(String),
    OpenPar,
    ClosePar,
    Plus,
    Minus,
    Mul,
    Div,
    Pow,
}

/// The mathematical shape of a token: as `SubExpr`, with a pending
/// function name abstracted to its characters.
pub enum TokenView {
    S(Expr),
    F(Seq<char>),
    OpenPar,
    ClosePar,
    Plus,
    Minus,
    Mul,
    Div,
    Pow,
}

impl View for SubExpr {
    type V = TokenView;

    open spec fn view(&self) -> TokenView {
        match self {
            SubExpr::S(e) => TokenView::S(*e),
            SubExpr::F(name) => TokenView::F(name@),
            SubExpr::OpenPar => TokenView::OpenPar,
            SubExpr::ClosePar => TokenView::ClosePar,
            SubExpr::Plus => TokenView::Plus,
            SubExpr::Minus => TokenView::Minus,
            SubExpr::Mul => TokenView::Mul,
            SubExpr::Div => TokenView::Div,
            SubExpr::Pow => TokenView::Pow,
        }
    }
}

impl DeepView for SubExpr {
    type V = TokenView;

    open spec fn deep_view(&self) -> TokenView {
        self.view()
    }
}

/// Structural equality of two tokens: embedded expressions are compared
/// structurally and function names by their characters.
pub open spec fn subexpr_eqv(a: SubExpr, b: SubExpr) -> bool {
    match (a, b) {
        (SubExpr::S(e1), SubExpr::S(e2)) => expr_eqv(e1, e2),
        (SubExpr::F(n1), SubExpr::F(n2)) => n1@ == n2@,
        (SubExpr::OpenPar, SubExpr::OpenPar) => true,
        (SubExpr::ClosePar, SubExpr::ClosePar) => true,
        (SubExpr::Plus, SubExpr::Plus) => true,
        (SubExpr::Minus, SubExpr::Minus) => true,
        (SubExpr::Mul, SubExpr::Mul) => true,
        (SubExpr::Div, SubExpr::Div) => true,
        (SubExpr::Pow, SubExpr::Pow) => true,
        _ => false,
    }
}

impl PartialEq for SubExpr {
    fn eq(&self, other: &Self) -> (r: bool)
        ensures
            r == subexpr_eqv(*self, *other),
    {
        match (self, other) {
            (SubExpr::S(e1), SubExpr::S(e2)) => e1.eq(e2),
            (SubExpr::F(n1), SubExpr::F(n2)) => *n1 == *n2,
            (SubExpr::OpenPar, SubExpr::OpenPar) => true,
            (SubExpr::ClosePar, SubExpr::ClosePar) => true,
            (SubExpr::Plus, SubExpr::Plus) => true,
            (SubExpr::Minus, SubExpr::Minus) => true,
            (SubExpr::Mul, SubExpr::Mul) => true,
            (SubExpr::Div, SubExpr::Div) => true,
            (SubExpr::Pow, SubExpr::Pow) => true,
            _ => false,
        }
    }
}

impl vstd::std_specs::cmp::PartialEqSpecImpl for SubExpr {
    open spec fn obeys_eq_spec() -> bool {
        true
    }

    open spec fn eq_spec(&self, other: &SubExpr) -> bool {
        subexpr_eqv(*self, *other)
    }
}

impl Clone for SubExpr {
    /// A deep copy: an embedded expression is duplicated by value.
    fn clone(&self) -> (res: Self)
        ensures
            res == *self,
    {
        match self {
            SubExpr::S(e) => SubExpr::S(e.clone()),
            SubExpr::F(name) => SubExpr::F(name.clone()),
            SubExpr::OpenPar => SubExpr::OpenPar,
            SubExpr::ClosePar => SubExpr::ClosePar,
            SubExpr::Plus => SubExpr::Plus,
            SubExpr::Minus => SubExpr::Minus,
            SubExpr::Mul => SubExpr::Mul,
            SubExpr::Div => SubExpr::Div,
            SubExpr::Pow => SubExpr::Pow,
        }
    }
}

} // verus!
