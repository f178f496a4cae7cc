//! The simplifier: one bottom-up pass of algebraic reductions over a
//! formula. The pass is not iterated to a fixed point; a caller wanting
//! full normalisation reapplies it until the result stops changing.

use vstd::prelude::*;

use crate::expr::{
    expr_eqv, lemma_expr_eqv_reflexive, lemma_expr_eqv_symmetric, lemma_expr_eqv_transitive, Expr,
};

verus! {

/// What one simplification pass returns, rule by rule:
/// leaves pass through; `-0` becomes `0`; a double negation is unwrapped
/// once; an addition with a negated operand becomes a subtraction before
/// any recursion; a subtraction of two structurally equal operands
/// becomes `0`; subtracting a negation becomes an addition; in a generic
/// addition both operands are simplified and a `0` operand is dropped;
/// in a multiplication a `0` operand collapses the node and a `1`
/// operand is dropped; a power collapses for exponent `0` or `1` and
/// then for base `0` or `1`; a division by `1` yields the simplified
/// divisor, and a division of structurally equal simplified operands
/// yields `1`; a function keeps its name over its simplified argument;
/// every other shape is left unchanged.
pub open spec fn spec_simplify(e: Expr) -> Expr
    decreases e,
{
    match e {
        Expr::Const(_) => e,
        Expr::Var(_) => e,
        Expr::E => e,
        Expr::Neg(inner) => match *inner {
            Expr::Const(n) => if n == 0 {
                Expr::Const(0)
            } else {
                Expr::Neg(Box::new(Expr::Const(n)))
            },
            Expr::Neg(x) => *x,
            other => Expr::Neg(Box::new(other)),
        },
        Expr::Add(l, r) => match (*l, *r) {
            (lhs, Expr::Neg(y)) => Expr::Sub(Box::new(lhs), y),
            (Expr::Neg(x), rhs) => Expr::Sub(Box::new(rhs), x),
            (lhs, rhs) => {
                let ls = spec_simplify(lhs);
                let rs = spec_simplify(rhs);
                if ls == Expr::Const(0u32) {
                    rs
                } else if rs == Expr::Const(0u32) {
                    ls
                } else {
                    Expr::Add(Box::new(ls), Box::new(rs))
                }
            },
        },
        Expr::Sub(l, r) => {
            if expr_eqv(*l, *r) {
                Expr::Const(0)
            } else {
                match *r {
                    Expr::Neg(y) => Expr::Add(l, y),
                    other => Expr::Sub(l, Box::new(other)),
                }
            }
        },
        Expr::Mul(l, r) => {
            let ls = spec_simplify(*l);
            let rs = spec_simplify(*r);
            if ls == Expr::Const(0u32) || rs == Expr::Const(0u32) {
                Expr::Const(0)
            } else if ls == Expr::Const(1u32) {
                rs
            } else if rs == Expr::Const(1u32) {
                ls
            } else {
                Expr::Mul(Box::new(ls), Box::new(rs))
            }
        },
        Expr::Pow(b, x) => {
            let bs = spec_simplify(*b);
            let xs = spec_simplify(*x);
            if xs == Expr::Const(0u32) {
                Expr::Const(1)
            } else if xs == Expr::Const(1u32) {
                bs
            } else if bs == Expr::Const(0u32) {
                Expr::Const(0)
            } else if bs == Expr::Const(1u32) {
                Expr::Const(1)
            } else {
                Expr::Pow(Box::new(bs), Box::new(xs))
            }
        },
        Expr::Div(l, r) => {
            let ds = spec_simplify(*l);
            let vs = spec_simplify(*r);
            if vs == Expr::Const(1u32) {
                vs
            } else if expr_eqv(vs, ds) {
                Expr::Const(1)
            } else {
                Expr::Div(Box::new(ds), Box::new(vs))
            }
        },
        Expr::Func(name, arg) => Expr::Func(name, Box::new(spec_simplify(*arg))),
    }
}

/// One bottom-up simplification pass over the formula.
pub fn simplify(expr: Expr) -> (r: Expr)
    ensures
        r == spec_simplify(expr),
    decreases expr,
{
    match expr {
        Expr::Const(_) | Expr::Var(_) | Expr::E => expr,
        Expr::Neg(inner) => match *inner {
            Expr::Const(n) => if n == 0 {
                Expr::Const(0)
            } else {
                Expr::Neg(Box::new(Expr::Const(n)))
            },
            Expr::Neg(x) => *x,
            other => Expr::Neg(Box::new(other)),
        },
        Expr::Add(l, r) => match (*l, *r) {
            (lhs, Expr::Neg(y)) => Expr::Sub(Box::new(lhs), y),
            (Expr::Neg(x), rhs) => Expr::Sub(Box::new(rhs), x),
            (lhs, rhs) => {
                let ls = simplify(lhs);
                let rs = simplify(rhs);
                if let Expr::Const(0) = ls {
                    rs
                } else if let Expr::Const(0) = rs {
                    ls
                } else {
                    Expr::Add(Box::new(ls), Box::new(rs))
                }
            },
        },
        Expr::Sub(l, r) => {
            if (*l).eq(&*r) {
                Expr::Const(0)
            } else {
                match *r {
                    Expr::Neg(y) => Expr::Add(l, y),
                    other => Expr::Sub(l, Box::new(other)),
                }
            }
        },
        Expr::Mul(l, r) => {
            let ls = simplify(*l);
            let rs = simplify(*r);
            if matches!(ls, Expr::Const(0)) || matches!(rs, Expr::Const(0)) {
                Expr::Const(0)
            } else if let Expr::Const(1) = ls {
                rs
            } else if let Expr::Const(1) = rs {
                ls
            } else {
                Expr::Mul(Box::new(ls), Box::new(rs))
            }
        },
        Expr::Pow(b, x) => {
            let bs = simplify(*b);
            let xs = simplify(*x);
            if let Expr::Const(0) = xs {
                Expr::Const(1)
            } else if let Expr::Const(1) = xs {
                bs
            } else if let Expr::Const(0) = bs {
                Expr::Const(0)
            } else if let Expr::Const(1) = bs {
                Expr::Const(1)
            } else {
                Expr::Pow(Box::new(bs), Box::new(xs))
            }
        },
        Expr::Div(l, r) => {
            let ds = simplify(*l);
            let vs = simplify(*r);
            if let Expr::Const(1) = vs {
                vs
            } else if vs.eq(&ds) {
                Expr::Const(1)
            } else {
                Expr::Div(Box::new(ds), Box::new(vs))
            }
        },
        Expr::Func(name, arg) => Expr::Func(name, Box::new(simplify(*arg))),
    }
}

/// One simplification pass sends structurally equal formulas to
/// structurally equal results.
pub proof fn lemma_simplify_congruence(a: Expr, b: Expr)
    requires
        expr_eqv(a, b),
    ensures
        expr_eqv(spec_simplify(a), spec_simplify(b)),
    decreases a,
{
    match (a, b) {
        (Expr::Neg(ai), Expr::Neg(bi)) => {
            assert(expr_eqv(*ai, *bi));
            match (*ai, *bi) {
                (Expr::Const(n), Expr::Const(m)) => {
                    assert(spec_simplify(a) == spec_simplify(b));
                    lemma_expr_eqv_reflexive(spec_simplify(a));
                },
                (Expr::Neg(x), Expr::Neg(y)) => {
                    assert(expr_eqv(*x, *y));
                },
                _ => {},
            }
        },
        (Expr::Add(al, ar), Expr::Add(bl, br)) => {
            assert(expr_eqv(*al, *bl));
            assert(expr_eqv(*ar, *br));
            match (*ar, *br) {
                (Expr::Neg(y1), Expr::Neg(y2)) => {
                    assert(expr_eqv(*y1, *y2));
                },
                _ => {
                    match (*al, *bl) {
                        (Expr::Neg(x1), Expr::Neg(x2)) => {
                            assert(expr_eqv(*x1, *x2));
                        },
                        _ => {
                            lemma_simplify_congruence(*al, *bl);
                            lemma_simplify_congruence(*ar, *br);
                        },
                    }
                },
            }
        },
        (Expr::Sub(al, ar), Expr::Sub(bl, br)) => {
            assert(expr_eqv(*al, *bl));
            assert(expr_eqv(*ar, *br));
            lemma_expr_eqv_symmetric(*al, *bl);
            lemma_expr_eqv_symmetric(*ar, *br);
            if expr_eqv(*al, *ar) {
                lemma_expr_eqv_transitive(*bl, *al, *ar);
                lemma_expr_eqv_transitive(*bl, *ar, *br);
            }
            if expr_eqv(*bl, *br) {
                lemma_expr_eqv_transitive(*al, *bl, *br);
                lemma_expr_eqv_transitive(*al, *br, *ar);
            }
            if !expr_eqv(*al, *ar) {
                match (*ar, *br) {
                    (Expr::Neg(y1), Expr::Neg(y2)) => {
                        assert(expr_eqv(*y1, *y2));
                    },
                    _ => {},
                }
            }
        },
        (Expr::Mul(al, ar), Expr::Mul(bl, br)) => {
            assert(expr_eqv(*al, *bl));
            assert(expr_eqv(*ar, *br));
            lemma_simplify_congruence(*al, *bl);
            lemma_simplify_congruence(*ar, *br);
        },
        (Expr::Pow(al, ar), Expr::Pow(bl, br)) => {
            assert(expr_eqv(*al, *bl));
            assert(expr_eqv(*ar, *br));
            lemma_simplify_congruence(*al, *bl);
            lemma_simplify_congruence(*ar, *br);
        },
        (Expr::Div(al, ar), Expr::Div(bl, br)) => {
            assert(expr_eqv(*al, *bl));
            assert(expr_eqv(*ar, *br));
            lemma_simplify_congruence(*al, *bl);
            lemma_simplify_congruence(*ar, *br);
            let dsa = spec_simplify(*al);
            let vsa = spec_simplify(*ar);
            let dsb = spec_simplify(*bl);
            let vsb = spec_simplify(*br);
            lemma_expr_eqv_symmetric(dsa, dsb);
            lemma_expr_eqv_symmetric(vsa, vsb);
            if expr_eqv(vsa, dsa) {
                lemma_expr_eqv_transitive(vsb, vsa, dsa);
                lemma_expr_eqv_transitive(vsb, dsa, dsb);
            }
            if expr_eqv(vsb, dsb) {
                lemma_expr_eqv_transitive(vsa, vsb, dsb);
                lemma_expr_eqv_transitive(vsa, dsb, dsa);
            }
        },
        (Expr::Func(_, a1), Expr::Func(_, a2)) => {
            assert(expr_eqv(*a1, *a2));
            lemma_simplify_congruence(*a1, *a2);
        },
        _ => {},
    }
}

/// Subtracting a formula from a structurally equal one simplifies to `0`,
/// whatever the operands hold.
pub proof fn lemma_simplify_minus_self(a: Expr, b: Expr)
    requires
        expr_eqv(a, b),
    ensures
        spec_simplify(Expr::Sub(Box::new(a), Box::new(b))) == Expr::Const(0u32),
{
}

/// Dividing a formula by a structurally equal one simplifies to `1`.
pub proof fn lemma_simplify_div_self(a: Expr, b: Expr)
    requires
        expr_eqv(a, b),
    ensures
        spec_simplify(Expr::Div(Box::new(a), Box::new(b))) == Expr::Const(1u32),
{
    lemma_simplify_congruence(a, b);
    lemma_expr_eqv_symmetric(spec_simplify(a), spec_simplify(b));
}

/// Simplifying a double negation yields the operand itself, so on any
/// formula that one pass leaves in place it agrees with simplifying the
/// operand alone. (On a formula the pass still changes, the double
/// negation is merely unwrapped, not simplified further.)
pub proof fn lemma_simplify_double_neg(e: Expr)
    requires
        expr_eqv(spec_simplify(e), e),
    ensures
        expr_eqv(
            spec_simplify(Expr::Neg(Box::new(Expr::Neg(Box::new(e))))),
            spec_simplify(e),
        ),
{
    lemma_expr_eqv_symmetric(spec_simplify(e), e);
}

} // verus!
