//! The output renderers: a formula to its display text, in standard or
//! LaTeX notation.

use vstd::prelude::*;

use crate::expr::Expr;
use crate::text::{chars_to_string, push_chars_of};

verus! {

/// The decimal digit character of a value below ten.
pub open spec fn dec_digit_char(d: nat) -> char {
    if d == 0 {
        '0'
    } else if d == 1 {
        '1'
    } else if d == 2 {
        '2'
    } else if d == 3 {
        '3'
    } else if d == 4 {
        '4'
    } else if d == 5 {
        '5'
    } else if d == 6 {
        '6'
    } else if d == 7 {
        '7'
    } else if d == 8 {
        '8'
    } else {
        '9'
    }
}

/// The decimal digits of `n`, most significant first.
pub open spec fn dec_digits(n: nat) -> Seq<char>
    decreases n,
{
    if n < 10 {
        seq![dec_digit_char(n)]
    } else {
        dec_digits(n / 10) + seq![dec_digit_char(n % 10)]
    }
}

/// The standard notation: every binary operator fully parenthesized,
/// except a multiplication with a bare variable operand, which is
/// written as juxtaposition, the variable last.
pub open spec fn std_notation(e: Expr) -> Seq<char>
    decreases e,
{
    match e {
        Expr::Var(c) => seq![c],
        Expr::Const(n) => dec_digits(n as nat),
        Expr::E => seq!['e'],
        Expr::Add(l, r) => seq!['('] + std_notation(*l) + seq![' ', '+', ' '] + std_notation(*r)
            + seq![')'],
        Expr::Mul(l, r) => if *r matches Expr::Var(_) {
            std_notation(*l) + std_notation(*r)
        } else if *l matches Expr::Var(_) {
            std_notation(*r) + std_notation(*l)
        } else {
            seq!['('] + std_notation(*l) + seq![' ', '*', ' '] + std_notation(*r) + seq![')']
        },
        Expr::Sub(l, r) => seq!['('] + std_notation(*l) + seq![' ', '-', ' '] + std_notation(*r)
            + seq![')'],
        Expr::Div(l, r) => seq!['('] + std_notation(*l) + seq![' ', '/', ' '] + std_notation(*r)
            + seq![')'],
        Expr::Pow(b, x) => seq!['('] + std_notation(*b) + seq!['^'] + std_notation(*x) + seq![')'],
        Expr::Neg(inner) => seq!['-'] + std_notation(*inner),
        Expr::Func(name, arg) => name@ + seq!['('] + std_notation(*arg) + seq![')'],
    }
}

/// Whether the LaTeX renderer may write `e` directly after a
/// coefficient: a variable, Euler's constant, or a power whose base
/// recursively is one.
pub open spec fn spec_var_appears_next(e: Expr) -> bool
    decreases e,
{
    match e {
        Expr::Var(_) => true,
        Expr::E => true,
        Expr::Pow(b, _) => spec_var_appears_next(*b),
        _ => false,
    }
}

/// Whether `e` is an addition or a subtraction.
pub open spec fn spec_add_or_sub(e: Expr) -> bool {
    match e {
        Expr::Add(_, _) => true,
        Expr::Sub(_, _) => true,
        _ => false,
    }
}

/// The LaTeX notation: constants in braces; multiplication written as
/// juxtaposition when an operand is a function application or a
/// variable-like operand follows, spelled out without parentheses when
/// neither operand is an addition or subtraction, and parenthesized
/// otherwise; powers with a spaced caret, never parenthesized; division
/// as a fraction.
pub open spec fn latex_notation(e: Expr) -> Seq<char>
    decreases e,
{
    match e {
        Expr::Var(c) => seq![c],
        Expr::Const(n) => seq!['{'] + dec_digits(n as nat) + seq!['}'],
        Expr::E => seq!['e'],
        Expr::Add(l, r) => seq!['('] + latex_notation(*l) + seq![' ', '+', ' '] + latex_notation(
            *r,
        ) + seq![')'],
        Expr::Sub(l, r) => seq!['('] + latex_notation(*l) + seq![' ', '-', ' '] + latex_notation(
            *r,
        ) + seq![')'],
        Expr::Mul(l, r) => if *r matches Expr::Func(_, _) {
            latex_notation(*l) + latex_notation(*r)
        } else if *l matches Expr::Func(_, _) {
            latex_notation(*r) + latex_notation(*l)
        } else if spec_var_appears_next(*r) {
            latex_notation(*l) + latex_notation(*r)
        } else if spec_var_appears_next(*l) {
            latex_notation(*r) + latex_notation(*l)
        } else if !spec_add_or_sub(*l) && !spec_add_or_sub(*r) {
            latex_notation(*l) + seq![' ', '*', ' '] + latex_notation(*r)
        } else {
            seq!['('] + latex_notation(*l) + seq![' ', '*', ' '] + latex_notation(*r) + seq![')']
        },
        Expr::Pow(b, x) => latex_notation(*b) + seq![' ', '^', ' '] + latex_notation(*x),
        Expr::Div(l, r) => seq!['\\', 'f', 'r', 'a', 'c', '{'] + latex_notation(*l) + seq![
            '}',
            '{',
        ] + latex_notation(*r) + seq!['}'],
        Expr::Neg(inner) => seq!['-'] + latex_notation(*inner),
        Expr::Func(name, arg) => name@ + seq!['('] + latex_notation(*arg) + seq![')'],
    }
}

fn digit_to_char(d: u32) -> (c: char)
    requires
        d < 10,
    ensures
        c == dec_digit_char(d as nat),
{
    match d {
        0 => '0',
        1 => '1',
        2 => '2',
        3 => '3',
        4 => '4',
        5 => '5',
        6 => '6',
        7 => '7',
        8 => '8',
        _ => '9',
    }
}

/// Appends the decimal digits of `n`.
fn push_u32_decimal(out: &mut Vec<char>, n: u32)
    ensures
        final(out)@ == old(out)@ + dec_digits(n as nat),
    decreases n,
{
    if n < 10 {
        out.push(digit_to_char(n));
        proof {
            assert(out@ =~= old(out)@ + dec_digits(n as nat));
        }
    } else {
        push_u32_decimal(out, n / 10);
        out.push(digit_to_char(n % 10));
        proof {
            assert(out@ =~= old(out)@ + dec_digits(n as nat));
        }
    }
}

/// Appends the standard notation of `e`.
fn push_std(out: &mut Vec<char>, e: &Expr)
    ensures
        final(out)@ == old(out)@ + std_notation(*e),
    decreases *e,
{
    match e {
        Expr::Var(c) => {
            out.push(*c);
            proof {
                assert(out@ =~= old(out)@ + std_notation(*e));
            }
        },
        Expr::Const(n) => {
            push_u32_decimal(out, *n);
        },
        Expr::E => {
            out.push('e');
            proof {
                assert(out@ =~= old(out)@ + std_notation(*e));
            }
        },
        Expr::Add(l, r) => {
            out.push('(');
            push_std(out, l);
            out.push(' ');
            out.push('+');
            out.push(' ');
            push_std(out, r);
            out.push(')');
            proof {
                assert(out@ =~= old(out)@ + std_notation(*e));
            }
        },
        Expr::Sub(l, r) => {
            out.push('(');
            push_std(out, l);
            out.push(' ');
            out.push('-');
            out.push(' ');
            push_std(out, r);
            out.push(')');
            proof {
                assert(out@ =~= old(out)@ + std_notation(*e));
            }
        },
        Expr::Div(l, r) => {
            out.push('(');
            push_std(out, l);
            out.push(' ');
            out.push('/');
            out.push(' ');
            push_std(out, r);
            out.push(')');
            proof {
                assert(out@ =~= old(out)@ + std_notation(*e));
            }
        },
        Expr::Mul(l, r) => {
            if matches!(&**r, Expr::Var(_)) {
                push_std(out, l);
                push_std(out, r);
                proof {
                    assert(out@ =~= old(out)@ + std_notation(*e));
                }
            } else if matches!(&**l, Expr::Var(_)) {
                push_std(out, r);
                push_std(out, l);
                proof {
                    assert(out@ =~= old(out)@ + std_notation(*e));
                }
            } else {
                out.push('(');
                push_std(out, l);
                out.push(' ');
                out.push('*');
                out.push(' ');
                push_std(out, r);
                out.push(')');
                proof {
                    assert(out@ =~= old(out)@ + std_notation(*e));
                }
            }
        },
        Expr::Pow(b, x) => {
            out.push('(');
            push_std(out, b);
            out.push('^');
            push_std(out, x);
            out.push(')');
            proof {
                assert(out@ =~= old(out)@ + std_notation(*e));
            }
        },
        Expr::Neg(inner) => {
            out.push('-');
            push_std(out, inner);
            proof {
                assert(out@ =~= old(out)@ + std_notation(*e));
            }
        },
        Expr::Func(name, arg) => {
            push_chars_of(out, name.as_str());
            out.push('(');
            push_std(out, arg);
            out.push(')');
            proof {
                assert(out@ =~= old(out)@ + std_notation(*e));
            }
        },
    }
}

/// Appends the LaTeX notation of `e`.
fn push_latex(out: &mut Vec<char>, e: &Expr)
    ensures
        final(out)@ == old(out)@ + latex_notation(*e),
    decreases *e,
{
    match e {
        Expr::Var(c) => {
            out.push(*c);
            proof {
                assert(out@ =~= old(out)@ + latex_notation(*e));
            }
        },
        Expr::Const(n) => {
            out.push('{');
            push_u32_decimal(out, *n);
            out.push('}');
            proof {
                assert(out@ =~= old(out)@ + latex_notation(*e));
            }
        },
        Expr::E => {
            out.push('e');
            proof {
                assert(out@ =~= old(out)@ + latex_notation(*e));
            }
        },
        Expr::Add(l, r) => {
            out.push('(');
            push_latex(out, l);
            out.push(' ');
            out.push('+');
            out.push(' ');
            push_latex(out, r);
            out.push(')');
            proof {
                assert(out@ =~= old(out)@ + latex_notation(*e));
            }
        },
        Expr::Sub(l, r) => {
            out.push('(');
            push_latex(out, l);
            out.push(' ');
            out.push('-');
            out.push(' ');
            push_latex(out, r);
            out.push(')');
            proof {
                assert(out@ =~= old(out)@ + latex_notation(*e));
            }
        },
        Expr::Mul(l, r) => {
            if matches!(&**r, Expr::Func(_, _)) {
                push_latex(out, l);
                push_latex(out, r);
                proof {
                    assert(out@ =~= old(out)@ + latex_notation(*e));
                }
            } else if matches!(&**l, Expr::Func(_, _)) {
                push_latex(out, r);
                push_latex(out, l);
                proof {
                    assert(out@ =~= old(out)@ + latex_notation(*e));
                }
            } else if LatexOut::var_appears_next(r) {
                push_latex(out, l);
                push_latex(out, r);
                proof {
                    assert(out@ =~= old(out)@ + latex_notation(*e));
                }
            } else if LatexOut::var_appears_next(l) {
                push_latex(out, r);
                push_latex(out, l);
                proof {
                    assert(out@ =~= old(out)@ + latex_notation(*e));
                }
            } else if !LatexOut::add_or_sub(l) && !LatexOut::add_or_sub(r) {
                push_latex(out, l);
                out.push(' ');
                out.push('*');
                out.push(' ');
                push_latex(out, r);
                proof {
                    assert(out@ =~= old(out)@ + latex_notation(*e));
                }
            } else {
                out.push('(');
                push_latex(out, l);
                out.push(' ');
                out.push('*');
                out.push(' ');
                push_latex(out, r);
                out.push(')');
                proof {
                    assert(out@ =~= old(out)@ + latex_notation(*e));
                }
            }
        },
        Expr::Pow(b, x) => {
            push_latex(out, b);
            out.push(' ');
            out.push('^');
            out.push(' ');
            push_latex(out, x);
            proof {
                assert(out@ =~= old(out)@ + latex_notation(*e));
            }
        },
        Expr::Div(l, r) => {
            out.push('\\');
            out.push('f');
            out.push('r');
            out.push('a');
            out.push('c');
            out.push('{');
            push_latex(out, l);
            out.push('}');
            out.push('{');
            push_latex(out, r);
            out.push('}');
            proof {
                assert(out@ =~= old(out)@ + latex_notation(*e));
            }
        },
        Expr::Neg(inner) => {
            out.push('-');
            push_latex(out, inner);
            proof {
                assert(out@ =~= old(out)@ + latex_notation(*e));
            }
        },
        Expr::Func(name, arg) => {
            push_chars_of(out, name.as_str());
            out.push('(');
            push_latex(out, arg);
            out.push(')');
            proof {
                assert(out@ =~= old(out)@ + latex_notation(*e));
            }
        },
    }
}

/// A renderer from a formula to its display text. Rendering never
/// fails; each renderer's own contract pins the exact text.
pub trait Out {
    fn output(&self, e: &Expr) -> (r: Result<String, String>)
        ensures
            r is Ok,
    ;
}

/// The standard-notation renderer.
pub struct StandardOut {}

/// The LaTeX-notation renderer.
pub struct LatexOut {}

/// The standard-notation renderer.
pub fn standard() -> StandardOut {
    StandardOut {  }
}

/// The LaTeX-notation renderer.
pub fn latex() -> LatexOut {
    LatexOut {  }
}

impl LatexOut {
    /// Whether `e` may be written directly after a coefficient.
    fn var_appears_next(e: &Expr) -> (b: bool)
        ensures
            b == spec_var_appears_next(*e),
        decreases *e,
    {
        match e {
            Expr::Var(_) => true,
            Expr::E => true,
            Expr::Pow(b, _) => Self::var_appears_next(b),
            _ => false,
        }
    }

    /// Whether `e` is an addition or a subtraction.
    fn add_or_sub(e: &Expr) -> (b: bool)
        ensures
            b == spec_add_or_sub(*e),
    {
        match e {
            Expr::Add(_, _) => true,
            Expr::Sub(_, _) => true,
            _ => false,
        }
    }
}

impl Out for StandardOut {
    /// Renders `e` in standard notation; rendering never fails.
    fn output(&self, e: &Expr) -> (r: Result<String, String>)
        ensures
            r matches Ok(s) && s@ == std_notation(*e),
    {
        let mut v: Vec<char> = Vec::new();
        push_std(&mut v, e);
        proof {
            assert(Seq::<char>::empty() + std_notation(*e) =~= std_notation(*e));
        }
        Ok(chars_to_string(&v))
    }
}

impl Out for LatexOut {
    /// Renders `e` in LaTeX notation; rendering never fails.
    fn output(&self, e: &Expr) -> (r: Result<String, String>)
        ensures
            r matches Ok(s) && s@ == latex_notation(*e),
    {
        let mut v: Vec<char> = Vec::new();
        push_latex(&mut v, e);
        proof {
            assert(Seq::<char>::empty() + latex_notation(*e) =~= latex_notation(*e));
        }
        Ok(chars_to_string(&v))
    }
}

} // verus!
