//! The derivative engine: symbolic differentiation of a formula with
//! respect to one variable. Only linearity, the product and quotient
//! rules, and positive integer powers of the differentiation variable
//! are supported; anything else is reported as an error, never guessed.

use vstd::prelude::*;

use crate::expr::Expr;

verus! {

/// Why a derivative could not be computed.
#[derive(Debug, PartialEq, Eq, Clone, Copy)]
pub enum DerivativeError {
    /// A variable other than the differentiation variable occurs as a
    /// non-constant leaf.
    OtherVariable,
    /// A power whose shape is not `Var(target) ^ Const(positive)`.
    UnsupportedPower,
    /// A function application, for which no rule exists.
    UnsupportedFunction,
}

/// The derivative of `e` with respect to `v`, shape by shape: an
/// effectively constant tree has derivative `0`; the target variable has
/// derivative `1` and any other variable is an error; negation,
/// addition and subtraction are linear; multiplication follows the
/// product rule and division the quotient rule, duplicating the original
/// operands; `Var(v) ^ Const(k)` with `k > 0` follows the power rule;
/// every other power, and every function application, is an error.
/// In a two-operand rule a failure in the left operand is reported
/// before the right operand is examined.
pub open spec fn spec_derivative(e: Expr, v: char) -> Result<Expr, DerivativeError>
    decreases e,
{
    if e.effectively_constant() {
        Ok(Expr::Const(0))
    } else {
        match e {
            Expr::Var(c) => if c == v {
                Ok(Expr::Const(1))
            } else {
                Err(DerivativeError::OtherVariable)
            },
            Expr::Neg(inner) => match spec_derivative(*inner, v) {
                Ok(d) => Ok(Expr::Neg(Box::new(d))),
                Err(err) => Err(err),
            },
            Expr::Add(l, r) => match spec_derivative(*l, v) {
                Ok(dl) => match spec_derivative(*r, v) {
                    Ok(dr) => Ok(Expr::Add(Box::new(dl), Box::new(dr))),
                    Err(err) => Err(err),
                },
                Err(err) => Err(err),
            },
            Expr::Sub(l, r) => match spec_derivative(*l, v) {
                Ok(dl) => match spec_derivative(*r, v) {
                    Ok(dr) => Ok(Expr::Sub(Box::new(dl), Box::new(dr))),
                    Err(err) => Err(err),
                },
                Err(err) => Err(err),
            },
            Expr::Mul(l, r) => match spec_derivative(*l, v) {
                Ok(dl) => match spec_derivative(*r, v) {
                    Ok(dr) => Ok(
                        Expr::Add(
                            Box::new(Expr::Mul(Box::new(dl), r)),
                            Box::new(Expr::Mul(Box::new(dr), l)),
                        ),
                    ),
                    Err(err) => Err(err),
                },
                Err(err) => Err(err),
            },
            Expr::Div(l, r) => match spec_derivative(*l, v) {
                Ok(dl) => match spec_derivative(*r, v) {
                    Ok(dr) => Ok(
                        Expr::Div(
                            Box::new(
                                Expr::Sub(
                                    Box::new(Expr::Mul(Box::new(dl), r)),
                                    Box::new(Expr::Mul(Box::new(dr), l)),
                                ),
                            ),
                            Box::new(Expr::Pow(r, Box::new(Expr::Const(2)))),
                        ),
                    ),
                    Err(err) => Err(err),
                },
                Err(err) => Err(err),
            },
            Expr::Pow(b, x) => match (*b, *x) {
                (Expr::Var(c), Expr::Const(k)) => if c == v && k > 0 {
                    Ok(
                        Expr::Mul(
                            Box::new(Expr::Const(k)),
                            Box::new(
                                Expr::Pow(
                                    Box::new(Expr::Var(c)),
                                    Box::new(Expr::Const((k - 1) as u32)),
                                ),
                            ),
                        ),
                    )
                } else {
                    Err(DerivativeError::UnsupportedPower)
                },
                _ => Err(DerivativeError::UnsupportedPower),
            },
            Expr::Func(_, _) => Err(DerivativeError::UnsupportedFunction),
            // Const and E leaves are effectively constant, so they
            // never reach this match
            _ => Ok(Expr::Const(0)),
        }
    }
}

/// The derivative of a constant formula is `0`, whatever the constant.
pub proof fn lemma_derivative_of_constant(k: u32, v: char)
    ensures
        spec_derivative(Expr::Const(k), v) == Ok::<Expr, DerivativeError>(Expr::Const(0u32)),
{
}

/// A pending differentiation of a borrowed formula.
pub struct Derivative<'a> {
    pub expr: &'a Expr,
}

impl<'a> Derivative<'a> {
    /// Differentiates the borrowed formula with respect to `var`.
    pub fn with_respect_to(&self, var: char) -> (r: Result<Expr, DerivativeError>)
        ensures
            r == spec_derivative(*self.expr, var),
        decreases *self.expr,
    {
        if self.expr.is_effectively_constant() {
            Ok(Expr::Const(0))
        } else {
            match self.expr {
                Expr::Var(c) => if *c == var {
                    Ok(Expr::Const(1))
                } else {
                    Err(DerivativeError::OtherVariable)
                },
                Expr::Neg(inner) => {
                    let inner_der = Derivative { expr: inner };
                    Ok(Expr::Neg(Box::new(inner_der.with_respect_to(var)?)))
                },
                Expr::Add(l, r) => {
                    let l_der = Derivative { expr: l };
                    let r_der = Derivative { expr: r };
                    Ok(
                        Expr::Add(
                            Box::new(l_der.with_respect_to(var)?),
                            Box::new(r_der.with_respect_to(var)?),
                        ),
                    )
                },
                Expr::Sub(l, r) => {
                    let l_der = Derivative { expr: l };
                    let r_der = Derivative { expr: r };
                    Ok(
                        Expr::Sub(
                            Box::new(l_der.with_respect_to(var)?),
                            Box::new(r_der.with_respect_to(var)?),
                        ),
                    )
                },
                Expr::Mul(l, r) => {
                    let l_der = Derivative { expr: l };
                    let r_der = Derivative { expr: r };
                    Ok(
                        Expr::Add(
                            Box::new(
                                Expr::Mul(
                                    Box::new(l_der.with_respect_to(var)?),
                                    Box::new((**r).clone()),
                                ),
                            ),
                            Box::new(
                                Expr::Mul(
                                    Box::new(r_der.with_respect_to(var)?),
                                    Box::new((**l).clone()),
                                ),
                            ),
                        ),
                    )
                },
                Expr::Div(l, r) => {
                    let l_der = Derivative { expr: l };
                    let r_der = Derivative { expr: r };
                    let dividend = Expr::Sub(
                        Box::new(
                            Expr::Mul(
                                Box::new(l_der.with_respect_to(var)?),
                                Box::new((**r).clone()),
                            ),
                        ),
                        Box::new(
                            Expr::Mul(
                                Box::new(r_der.with_respect_to(var)?),
                                Box::new((**l).clone()),
                            ),
                        ),
                    );
                    let divisor = Expr::Pow(Box::new((**r).clone()), Box::new(Expr::Const(2)));
                    Ok(Expr::Div(Box::new(dividend), Box::new(divisor)))
                },
                Expr::Pow(b, x) => match (&**b, &**x) {
                    (Expr::Var(c), Expr::Const(k)) => if *c == var && *k > 0 {
                        Ok(
                            Expr::Mul(
                                Box::new(Expr::Const(*k)),
                                Box::new(
                                    Expr::Pow(
                                        Box::new(Expr::Var(*c)),
                                        Box::new(Expr::Const(*k - 1)),
                                    ),
                                ),
                            ),
                        )
                    } else {
                        Err(DerivativeError::UnsupportedPower)
                    },
                    _ => Err(DerivativeError::UnsupportedPower),
                },
                Expr::Func(_, _) => Err(DerivativeError::UnsupportedFunction),
                // Const and E leaves are effectively constant, so they
                // never reach this match
                _ => Ok(Expr::Const(0)),
            }
        }
    }
}

} // verus!
