//! The expression tree: an immutable recursive value type for algebraic
//! formulas, together with structural equality, deep cloning, and the
//! `effectively constant` predicate.

use vstd::prelude::*;

verus! {

/// An algebraic formula. Each compound node exclusively owns its children,
/// so a value is always a tree. `Const` never holds a negative number:
/// negative quantities are written with `Neg`.
#[derive(Debug)]
pub enum Expr {
    Const(u32),
    E,
    Var(char),
    Add(Box<Expr>, Box<Expr>),
    Sub(Box<Expr>, Box<Expr>),
    Mul(Box<Expr>, Box<Expr>),
    Div(Box<Expr>, Box<Expr>),
    Pow(Box<Expr>, Box<Expr>),
    Neg(Box<Expr>),
    Func(String, Box<Expr>),
}

/// Structural equality of two formulas: the same shape everywhere, with
/// function names compared by their characters.
pub open spec fn expr_eqv(a: Expr, b: Expr) -> bool
    decreases a,
{
    match (a, b) {
        (Expr::Const(m), Expr::Const(n)) => m == n,
        (Expr::E, Expr::E) => true,
        (Expr::Var(c), Expr::Var(d)) => c == d,
        (Expr::Add(l1, r1), Expr::Add(l2, r2)) => expr_eqv(*l1, *l2) && expr_eqv(*r1, *r2),
        (Expr::Sub(l1, r1), Expr::Sub(l2, r2)) => expr_eqv(*l1, *l2) && expr_eqv(*r1, *r2),
        (Expr::Mul(l1, r1), Expr::Mul(l2, r2)) => expr_eqv(*l1, *l2) && expr_eqv(*r1, *r2),
        (Expr::Div(l1, r1), Expr::Div(l2, r2)) => expr_eqv(*l1, *l2) && expr_eqv(*r1, *r2),
        (Expr::Pow(l1, r1), Expr::Pow(l2, r2)) => expr_eqv(*l1, *l2) && expr_eqv(*r1, *r2),
        (Expr::Neg(e1), Expr::Neg(e2)) => expr_eqv(*e1, *e2),
        (Expr::Func(n1, a1), Expr::Func(n2, a2)) => n1@ == n2@ && expr_eqv(*a1, *a2),
        _ => false,
    }
}

/// Structural equality is reflexive.
pub proof fn lemma_expr_eqv_reflexive(a: Expr)
    ensures
        expr_eqv(a, a),
    decreases a,
{
    match a {
        Expr::Add(l, r) | Expr::Sub(l, r) | Expr::Mul(l, r) | Expr::Div(l, r) | Expr::Pow(
            l,
            r,
        ) => {
            lemma_expr_eqv_reflexive(*l);
            lemma_expr_eqv_reflexive(*r);
        },
        Expr::Neg(e) => {
            lemma_expr_eqv_reflexive(*e);
        },
        Expr::Func(_, arg) => {
            lemma_expr_eqv_reflexive(*arg);
        },
        _ => {},
    }
}

/// Structural equality is symmetric.
pub proof fn lemma_expr_eqv_symmetric(a: Expr, b: Expr)
    ensures
        expr_eqv(a, b) == expr_eqv(b, a),
    decreases a,
{
    match (a, b) {
        (Expr::Add(l1, r1), Expr::Add(l2, r2)) => {
            lemma_expr_eqv_symmetric(*l1, *l2);
            lemma_expr_eqv_symmetric(*r1, *r2);
        },
        (Expr::Sub(l1, r1), Expr::Sub(l2, r2)) => {
            lemma_expr_eqv_symmetric(*l1, *l2);
            lemma_expr_eqv_symmetric(*r1, *r2);
        },
        (Expr::Mul(l1, r1), Expr::Mul(l2, r2)) => {
            lemma_expr_eqv_symmetric(*l1, *l2);
            lemma_expr_eqv_symmetric(*r1, *r2);
        },
        (Expr::Div(l1, r1), Expr::Div(l2, r2)) => {
            lemma_expr_eqv_symmetric(*l1, *l2);
            lemma_expr_eqv_symmetric(*r1, *r2);
        },
        (Expr::Pow(l1, r1), Expr::Pow(l2, r2)) => {
            lemma_expr_eqv_symmetric(*l1, *l2);
            lemma_expr_eqv_symmetric(*r1, *r2);
        },
        (Expr::Neg(e1), Expr::Neg(e2)) => {
            lemma_expr_eqv_symmetric(*e1, *e2);
        },
        (Expr::Func(_, a1), Expr::Func(_, a2)) => {
            lemma_expr_eqv_symmetric(*a1, *a2);
        },
        _ => {},
    }
}

/// Structural equality is transitive.
pub proof fn lemma_expr_eqv_transitive(a: Expr, b: Expr, c: Expr)
    requires
        expr_eqv(a, b),
        expr_eqv(b, c),
    ensures
        expr_eqv(a, c),
    decreases a,
{
    match (a, b, c) {
        (Expr::Add(l1, r1), Expr::Add(l2, r2), Expr::Add(l3, r3)) => {
            lemma_expr_eqv_transitive(*l1, *l2, *l3);
            lemma_expr_eqv_transitive(*r1, *r2, *r3);
        },
        (Expr::Sub(l1, r1), Expr::Sub(l2, r2), Expr::Sub(l3, r3)) => {
            lemma_expr_eqv_transitive(*l1, *l2, *l3);
            lemma_expr_eqv_transitive(*r1, *r2, *r3);
        },
        (Expr::Mul(l1, r1), Expr::Mul(l2, r2), Expr::Mul(l3, r3)) => {
            lemma_expr_eqv_transitive(*l1, *l2, *l3);
            lemma_expr_eqv_transitive(*r1, *r2, *r3);
        },
        (Expr::Div(l1, r1), Expr::Div(l2, r2), Expr::Div(l3, r3)) => {
            lemma_expr_eqv_transitive(*l1, *l2, *l3);
            lemma_expr_eqv_transitive(*r1, *r2, *r3);
        },
        (Expr::Pow(l1, r1), Expr::Pow(l2, r2), Expr::Pow(l3, r3)) => {
            lemma_expr_eqv_transitive(*l1, *l2, *l3);
            lemma_expr_eqv_transitive(*r1, *r2, *r3);
        },
        (Expr::Neg(e1), Expr::Neg(e2), Expr::Neg(e3)) => {
            lemma_expr_eqv_transitive(*e1, *e2, *e3);
        },
        (Expr::Func(_, a1), Expr::Func(_, a2), Expr::Func(_, a3)) => {
            lemma_expr_eqv_transitive(*a1, *a2, *a3);
        },
        _ => {},
    }
}

impl PartialEq for Expr {
    fn eq(&self, other: &Self) -> (r: bool)
        ensures
            r == expr_eqv(*self, *other),
        decreases *self,
    {
        match (self, other) {
            (Expr::Const(m), Expr::Const(n)) => m == n,
            (Expr::E, Expr::E) => true,
            (Expr::Var(c), Expr::Var(d)) => c == d,
            (Expr::Add(l1, r1), Expr::Add(l2, r2)) => (**l1).eq(&**l2) && (**r1).eq(&**r2),
            (Expr::Sub(l1, r1), Expr::Sub(l2, r2)) => (**l1).eq(&**l2) && (**r1).eq(&**r2),
            (Expr::Mul(l1, r1), Expr::Mul(l2, r2)) => (**l1).eq(&**l2) && (**r1).eq(&**r2),
            (Expr::Div(l1, r1), Expr::Div(l2, r2)) => (**l1).eq(&**l2) && (**r1).eq(&**r2),
            (Expr::Pow(l1, r1), Expr::Pow(l2, r2)) => (**l1).eq(&**l2) && (**r1).eq(&**r2),
            (Expr::Neg(e1), Expr::Neg(e2)) => (**e1).eq(&**e2),
            (Expr::Func(n1, a1), Expr::Func(n2, a2)) => *n1 == *n2 && (**a1).eq(&**a2),
            _ => false,
        }
    }
}

impl vstd::std_specs::cmp::PartialEqSpecImpl for Expr {
    open spec fn obeys_eq_spec() -> bool {
        true
    }

    open spec fn eq_spec(&self, other: &Expr) -> bool {
        expr_eqv(*self, *other)
    }
}

impl Clone for Expr {
    /// A deep copy: every child is duplicated by value.
    fn clone(&self) -> (res: Self)
        ensures
            res == *self,
        decreases *self,
    {
        match self {
            Expr::Const(n) => Expr::Const(*n),
            Expr::E => Expr::E,
            Expr::Var(c) => Expr::Var(*c),
            Expr::Add(l, r) => Expr::Add(Box::new((**l).clone()), Box::new((**r).clone())),
            Expr::Sub(l, r) => Expr::Sub(Box::new((**l).clone()), Box::new((**r).clone())),
            Expr::Mul(l, r) => Expr::Mul(Box::new((**l).clone()), Box::new((**r).clone())),
            Expr::Div(l, r) => Expr::Div(Box::new((**l).clone()), Box::new((**r).clone())),
            Expr::Pow(l, r) => Expr::Pow(Box::new((**l).clone()), Box::new((**r).clone())),
            Expr::Neg(e) => Expr::Neg(Box::new((**e).clone())),
            Expr::Func(name, arg) => Expr::Func(name.clone(), Box::new((**arg).clone())),
        }
    }
}

impl Expr {
    /// A formula is effectively constant when it is built only from
    /// `Const` and `E` leaves and arithmetic combinators. A `Var` leaf
    /// makes it non-constant, and so does a `Func` node, whatever its
    /// argument holds.
    pub open spec fn effectively_constant(self) -> bool
        decreases self,
    {
        match self {
            Expr::Const(_) => true,
            Expr::E => true,
            Expr::Var(_) => false,
            Expr::Add(l, r) => (*l).effectively_constant() && (*r).effectively_constant(),
            Expr::Sub(l, r) => (*l).effectively_constant() && (*r).effectively_constant(),
            Expr::Mul(l, r) => (*l).effectively_constant() && (*r).effectively_constant(),
            Expr::Div(l, r) => (*l).effectively_constant() && (*r).effectively_constant(),
            Expr::Pow(l, r) => (*l).effectively_constant() && (*r).effectively_constant(),
            Expr::Neg(e) => (*e).effectively_constant(),
            Expr::Func(_, _) => false,
        }
    }

    /// Whether a `Var` or `Func` node occurs anywhere in the tree.
    pub open spec fn mentions_var_or_func(self) -> bool
        decreases self,
    {
        match self {
            Expr::Const(_) => false,
            Expr::E => false,
            Expr::Var(_) => true,
            Expr::Add(l, r) => (*l).mentions_var_or_func() || (*r).mentions_var_or_func(),
            Expr::Sub(l, r) => (*l).mentions_var_or_func() || (*r).mentions_var_or_func(),
            Expr::Mul(l, r) => (*l).mentions_var_or_func() || (*r).mentions_var_or_func(),
            Expr::Div(l, r) => (*l).mentions_var_or_func() || (*r).mentions_var_or_func(),
            Expr::Pow(l, r) => (*l).mentions_var_or_func() || (*r).mentions_var_or_func(),
            Expr::Neg(e) => (*e).mentions_var_or_func(),
            Expr::Func(_, _) => true,
        }
    }

    pub fn is_effectively_constant(&self) -> (r: bool)
        ensures
            r == self.effectively_constant(),
        decreases *self,
    {
        match self {
            Expr::Const(_) => true,
            Expr::E => true,
            Expr::Var(_) => false,
            Expr::Add(l, r) => l.is_effectively_constant() && r.is_effectively_constant(),
            Expr::Sub(l, r) => l.is_effectively_constant() && r.is_effectively_constant(),
            Expr::Mul(l, r) => l.is_effectively_constant() && r.is_effectively_constant(),
            Expr::Div(l, r) => l.is_effectively_constant() && r.is_effectively_constant(),
            Expr::Pow(l, r) => l.is_effectively_constant() && r.is_effectively_constant(),
            Expr::Neg(e) => e.is_effectively_constant(),
            Expr::Func(_, _) => false,
        }
    }
}

/// A non-negative integer literal.
pub fn num(n: u32) -> (r: Expr)
    ensures
        r == Expr::Const(n),
{
    Expr::Const(n)
}

/// A single-character variable.
pub fn var(name: char) -> (r: Expr)
    ensures
        r == Expr::Var(name),
{
    Expr::Var(name)
}

/// A named function applied to one argument.
pub fn func(name: &str, arg: Expr) -> (r: Expr)
    ensures
        r matches Expr::Func(n, a) && n@ == name@ && *a == arg,
{
    Expr::Func(name.to_owned(), Box::new(arg))
}

/// The sine of the argument.
pub fn sin(arg: Expr) -> (r: Expr)
    ensures
        r matches Expr::Func(n, a) && n@ == "sin"@ && *a == arg,
{
    func("sin", arg)
}

/// The cosine of the argument.
pub fn cos(arg: Expr) -> (r: Expr)
    ensures
        r matches Expr::Func(n, a) && n@ == "cos"@ && *a == arg,
{
    func("cos", arg)
}

/// The tangent of the argument.
pub fn tan(arg: Expr) -> (r: Expr)
    ensures
        r matches Expr::Func(n, a) && n@ == "tan"@ && *a == arg,
{
    func("tan", arg)
}

impl Expr {
    /// The negation of a formula; negating a `Neg` node unwraps it
    /// instead of stacking a second one.
    pub open spec fn spec_neg(self) -> Expr {
        match self {
            Expr::Neg(inner) => *inner,
            _ => Expr::Neg(Box::new(self)),
        }
    }

    pub fn plus(self, that: Expr) -> (r: Expr)
        ensures
            r == Expr::Add(Box::new(self), Box::new(that)),
    {
        Expr::Add(Box::new(self), Box::new(that))
    }

    pub fn minus(self, that: Expr) -> (r: Expr)
        ensures
            r == Expr::Sub(Box::new(self), Box::new(that)),
    {
        Expr::Sub(Box::new(self), Box::new(that))
    }

    pub fn times(self, that: Expr) -> (r: Expr)
        ensures
            r == Expr::Mul(Box::new(self), Box::new(that)),
    {
        Expr::Mul(Box::new(self), Box::new(that))
    }

    pub fn div(self, that: Expr) -> (r: Expr)
        ensures
            r == Expr::Div(Box::new(self), Box::new(that)),
    {
        Expr::Div(Box::new(self), Box::new(that))
    }

    pub fn pow(self, that: Expr) -> (r: Expr)
        ensures
            r == Expr::Pow(Box::new(self), Box::new(that)),
    {
        Expr::Pow(Box::new(self), Box::new(that))
    }

    pub fn neg(self) -> (r: Expr)
        ensures
            r == self.spec_neg(),
    {
        match self {
            Expr::Neg(inner) => *inner,
            other => Expr::Neg(Box::new(other)),
        }
    }

    /// One bottom-up simplification pass over the formula.
    pub fn simplified(self) -> (r: Expr)
        ensures
            r == crate::simplify::spec_simplify(self),
    {
        crate::simplify::simplify(self)
    }

    /// A pending differentiation of this formula.
    pub fn derivative(&self) -> (d: crate::derivative::Derivative<'_>)
        ensures
            d.expr == self,
    {
        crate::derivative::Derivative { expr: self }
    }
}

/// A tree built only from `Const`, `E` and the arithmetic combinators is
/// effectively constant, and it stops being so exactly when a `Var` or a
/// `Func` occurs somewhere in it.
pub proof fn lemma_effectively_constant_iff_no_var_or_func(e: Expr)
    ensures
        e.effectively_constant() <==> !e.mentions_var_or_func(),
    decreases e,
{
    match e {
        Expr::Add(l, r) | Expr::Sub(l, r) | Expr::Mul(l, r) | Expr::Div(l, r) | Expr::Pow(
            l,
            r,
        ) => {
            lemma_effectively_constant_iff_no_var_or_func(*l);
            lemma_effectively_constant_iff_no_var_or_func(*r);
        },
        Expr::Neg(inner) => {
            lemma_effectively_constant_iff_no_var_or_func(*inner);
        },
        _ => {},
    }
}

} // verus!
