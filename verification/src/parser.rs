//! The reduction parser: a token sequence is repeatedly scanned for the
//! leftmost match of each pattern in a fixed priority list; the first
//! pattern that matches anywhere is applied, the matched window is
//! spliced into one token, and the scan restarts, until exactly one
//! embedded expression remains. Priority order: function application,
//! parenthesized expression, exponentiation, multiplication, division,
//! addition, subtraction.

use vstd::prelude::*;

use crate::expr::Expr;
use crate::subexpr::SubExpr;

verus! {

/// Parsing failed: no pattern matched and more than one token (or no
/// single embedded expression) remained.
#[derive(Debug)]
pub struct ParseError {
    /// The token sequence as it stood when no pattern matched.
    pub residual: Vec<SubExpr>,
}

/// One of the five binary operators a reduction can collapse.
#[derive(Debug, PartialEq, Eq, Clone, Copy)]
pub enum BinOp {
    Pow,
    Mul,
    Div,
    Add,
    Sub,
}

/// Whether `tok` is the operator token of `op`.
pub open spec fn is_op_token(tok: SubExpr, op: BinOp) -> bool {
    match (tok, op) {
        (SubExpr::Pow, BinOp::Pow) => true,
        (SubExpr::Mul, BinOp::Mul) => true,
        (SubExpr::Div, BinOp::Div) => true,
        (SubExpr::Plus, BinOp::Add) => true,
        (SubExpr::Minus, BinOp::Sub) => true,
        _ => false,
    }
}

/// The expression node that collapsing `op` builds.
pub open spec fn combine(op: BinOp, l: Expr, r: Expr) -> Expr {
    match op {
        BinOp::Pow => Expr::Pow(Box::new(l), Box::new(r)),
        BinOp::Mul => Expr::Mul(Box::new(l), Box::new(r)),
        BinOp::Div => Expr::Div(Box::new(l), Box::new(r)),
        BinOp::Add => Expr::Add(Box::new(l), Box::new(r)),
        BinOp::Sub => Expr::Sub(Box::new(l), Box::new(r)),
    }
}

/// A function application window `[name, (, expr, )]` starts at `i`.
pub open spec fn func_app_at(t: Seq<SubExpr>, i: int) -> bool {
    &&& 0 <= i
    &&& i + 4 <= t.len()
    &&& t[i] matches SubExpr::F(_)
    &&& t[i + 1] matches SubExpr::OpenPar
    &&& t[i + 2] matches SubExpr::S(_)
    &&& t[i + 3] matches SubExpr::ClosePar
}

/// The token a function application window collapses to.
pub open spec fn func_app_replacement(t: Seq<SubExpr>, i: int) -> SubExpr {
    match (t[i], t[i + 2]) {
        (SubExpr::F(name), SubExpr::S(arg)) => SubExpr::S(Expr::Func(name, Box::new(arg))),
        _ => arbitrary(),
    }
}

/// A parenthesized expression window `[(, expr, )]` starts at `i`.
pub open spec fn parens_at(t: Seq<SubExpr>, i: int) -> bool {
    &&& 0 <= i
    &&& i + 3 <= t.len()
    &&& t[i] matches SubExpr::OpenPar
    &&& t[i + 1] matches SubExpr::S(_)
    &&& t[i + 2] matches SubExpr::ClosePar
}

/// The token a parenthesized window collapses to: the inner expression,
/// parentheses discarded.
pub open spec fn parens_replacement(t: Seq<SubExpr>, i: int) -> SubExpr {
    t[i + 1]
}

/// A binary operator window `[expr, op, expr]` starts at `i`.
pub open spec fn binop_at(t: Seq<SubExpr>, op: BinOp, i: int) -> bool {
    &&& 0 <= i
    &&& i + 3 <= t.len()
    &&& t[i] matches SubExpr::S(_)
    &&& is_op_token(t[i + 1], op)
    &&& t[i + 2] matches SubExpr::S(_)
}

/// The token a binary operator window collapses to.
pub open spec fn binop_replacement(t: Seq<SubExpr>, op: BinOp, i: int) -> SubExpr {
    match (t[i], t[i + 2]) {
        (SubExpr::S(l), SubExpr::S(r)) => SubExpr::S(combine(op, l, r)),
        _ => arbitrary(),
    }
}

/// The leftmost function application window at or after `j`.
pub open spec fn first_func_app_from(t: Seq<SubExpr>, j: int) -> Option<int>
    decreases t.len() - j,
{
    if j < 0 || j >= t.len() {
        None
    } else if func_app_at(t, j) {
        Some(j)
    } else {
        first_func_app_from(t, j + 1)
    }
}

/// The leftmost parenthesized window at or after `j`.
pub open spec fn first_parens_from(t: Seq<SubExpr>, j: int) -> Option<int>
    decreases t.len() - j,
{
    if j < 0 || j >= t.len() {
        None
    } else if parens_at(t, j) {
        Some(j)
    } else {
        first_parens_from(t, j + 1)
    }
}

/// The leftmost `op` window at or after `j`.
pub open spec fn first_binop_from(t: Seq<SubExpr>, op: BinOp, j: int) -> Option<int>
    decreases t.len() - j,
{
    if j < 0 || j >= t.len() {
        None
    } else if binop_at(t, op, j) {
        Some(j)
    } else {
        first_binop_from(t, op, j + 1)
    }
}

pub open spec fn first_func_app(t: Seq<SubExpr>) -> Option<int> {
    first_func_app_from(t, 0)
}

pub open spec fn first_parens(t: Seq<SubExpr>) -> Option<int> {
    first_parens_from(t, 0)
}

pub open spec fn first_binop(t: Seq<SubExpr>, op: BinOp) -> Option<int> {
    first_binop_from(t, op, 0)
}

proof fn lemma_first_func_app_from_matches(t: Seq<SubExpr>, j: int)
    ensures
        match first_func_app_from(t, j) {
            Some(i) => j <= i && func_app_at(t, i),
            None => true,
        },
    decreases t.len() - j,
{
    if j < 0 || j >= t.len() {
    } else if func_app_at(t, j) {
    } else {
        lemma_first_func_app_from_matches(t, j + 1);
    }
}

proof fn lemma_first_parens_from_matches(t: Seq<SubExpr>, j: int)
    ensures
        match first_parens_from(t, j) {
            Some(i) => j <= i && parens_at(t, i),
            None => true,
        },
    decreases t.len() - j,
{
    if j < 0 || j >= t.len() {
    } else if parens_at(t, j) {
    } else {
        lemma_first_parens_from_matches(t, j + 1);
    }
}

proof fn lemma_first_binop_from_matches(t: Seq<SubExpr>, op: BinOp, j: int)
    ensures
        match first_binop_from(t, op, j) {
            Some(i) => j <= i && binop_at(t, op, i),
            None => true,
        },
    decreases t.len() - j,
{
    if j < 0 || j >= t.len() {
    } else if binop_at(t, op, j) {
    } else {
        lemma_first_binop_from_matches(t, op, j + 1);
    }
}

/// The matched window, `w` tokens from `i`, spliced into one token.
pub open spec fn splice(t: Seq<SubExpr>, i: int, w: int, rep: SubExpr) -> Seq<SubExpr> {
    t.take(i) + seq![rep] + t.skip(i + w)
}

/// One reduction: the highest-priority pattern that matches anywhere,
/// applied at its leftmost match; nothing when no pattern matches.
pub open spec fn parse_step(t: Seq<SubExpr>) -> Option<Seq<SubExpr>> {
    match first_func_app(t) {
        Some(i) => Some(splice(t, i, 4, func_app_replacement(t, i))),
        None => match first_parens(t) {
            Some(i) => Some(splice(t, i, 3, parens_replacement(t, i))),
            None => match first_binop(t, BinOp::Pow) {
                Some(i) => Some(splice(t, i, 3, binop_replacement(t, BinOp::Pow, i))),
                None => match first_binop(t, BinOp::Mul) {
                    Some(i) => Some(splice(t, i, 3, binop_replacement(t, BinOp::Mul, i))),
                    None => match first_binop(t, BinOp::Div) {
                        Some(i) => Some(splice(t, i, 3, binop_replacement(t, BinOp::Div, i))),
                        None => match first_binop(t, BinOp::Add) {
                            Some(i) => Some(splice(t, i, 3, binop_replacement(t, BinOp::Add, i))),
                            None => match first_binop(t, BinOp::Sub) {
                                Some(i) => Some(
                                    splice(t, i, 3, binop_replacement(t, BinOp::Sub, i)),
                                ),
                                None => None,
                            },
                        },
                    },
                },
            },
        },
    }
}

/// What the reduction loop returns on `t`: the embedded expression once
/// exactly one remains, the outcome of the reduced sequence after a
/// step, and the residual sequence when no pattern matches.
pub open spec fn spec_parse(t: Seq<SubExpr>) -> Result<Expr, Seq<SubExpr>>
    decreases t.len(),
    via spec_parse_decreases
{
    if t.len() == 1 && (t[0] matches SubExpr::S(_)) {
        match t[0] {
            SubExpr::S(e) => Ok(e),
            _ => Err(t),
        }
    } else {
        match parse_step(t) {
            Some(t2) => spec_parse(t2),
            None => Err(t),
        }
    }
}

#[via_fn]
proof fn spec_parse_decreases(t: Seq<SubExpr>) {
    lemma_first_func_app_from_matches(t, 0);
    lemma_first_parens_from_matches(t, 0);
    lemma_first_binop_from_matches(t, BinOp::Pow, 0);
    lemma_first_binop_from_matches(t, BinOp::Mul, 0);
    lemma_first_binop_from_matches(t, BinOp::Div, 0);
    lemma_first_binop_from_matches(t, BinOp::Add, 0);
    lemma_first_binop_from_matches(t, BinOp::Sub, 0);
}

/// A token sequence of more than one token on which no pattern matches
/// does not parse, and the error carries that residual sequence.
pub proof fn lemma_parse_irreducible(t: Seq<SubExpr>)
    requires
        t.len() > 1,
        first_func_app(t) is None,
        first_parens(t) is None,
        first_binop(t, BinOp::Pow) is None,
        first_binop(t, BinOp::Mul) is None,
        first_binop(t, BinOp::Div) is None,
        first_binop(t, BinOp::Add) is None,
        first_binop(t, BinOp::Sub) is None,
    ensures
        spec_parse(t) == Err::<Expr, Seq<SubExpr>>(t),
{
}

/// Whether `tok` is the operator token of `op`.
fn is_op(tok: &SubExpr, op: BinOp) -> (b: bool)
    ensures
        b == is_op_token(*tok, op),
{
    match (tok, op) {
        (SubExpr::Pow, BinOp::Pow) => true,
        (SubExpr::Mul, BinOp::Mul) => true,
        (SubExpr::Div, BinOp::Div) => true,
        (SubExpr::Plus, BinOp::Add) => true,
        (SubExpr::Minus, BinOp::Sub) => true,
        _ => false,
    }
}

/// Finds the leftmost function application window and the token it
/// collapses to.
#[verifier::loop_isolation(false)]
fn find_func_app(t: &Vec<SubExpr>) -> (r: Option<(usize, SubExpr)>)
    ensures
        match r {
            Some(ir) => {
                &&& first_func_app(t@) == Some(ir.0 as int)
                &&& func_app_at(t@, ir.0 as int)
                &&& ir.1 == func_app_replacement(t@, ir.0 as int)
            },
            None => first_func_app(t@) is None,
        },
{
    let mut j: usize = 0;
    while j < t.len()
        invariant
            j <= t@.len(),
            first_func_app(t@) == first_func_app_from(t@, j as int),
        decreases t@.len() - j,
    {
        if t.len() - j >= 4 {
            match (&t[j], &t[j + 1], &t[j + 2], &t[j + 3]) {
                (SubExpr::F(name), SubExpr::OpenPar, SubExpr::S(arg), SubExpr::ClosePar) => {
                    return Some(
                        (j, SubExpr::S(Expr::Func(name.clone(), Box::new(arg.clone())))),
                    );
                },
                _ => {},
            }
        }
        proof {
            assert(!func_app_at(t@, j as int));
        }
        j = j + 1;
    }
    None
}

/// Finds the leftmost parenthesized window and the token it collapses
/// to.
#[verifier::loop_isolation(false)]
fn find_parens(t: &Vec<SubExpr>) -> (r: Option<(usize, SubExpr)>)
    ensures
        match r {
            Some(ir) => {
                &&& first_parens(t@) == Some(ir.0 as int)
                &&& parens_at(t@, ir.0 as int)
                &&& ir.1 == parens_replacement(t@, ir.0 as int)
            },
            None => first_parens(t@) is None,
        },
{
    let mut j: usize = 0;
    while j < t.len()
        invariant
            j <= t@.len(),
            first_parens(t@) == first_parens_from(t@, j as int),
        decreases t@.len() - j,
    {
        if t.len() - j >= 3 {
            match (&t[j], &t[j + 1], &t[j + 2]) {
                (SubExpr::OpenPar, SubExpr::S(_), SubExpr::ClosePar) => {
                    return Some((j, t[j + 1].clone()));
                },
                _ => {},
            }
        }
        proof {
            assert(!parens_at(t@, j as int));
        }
        j = j + 1;
    }
    None
}

/// Finds the leftmost `op` window and the token it collapses to.
#[verifier::loop_isolation(false)]
fn find_binop(t: &Vec<SubExpr>, op: BinOp) -> (r: Option<(usize, SubExpr)>)
    ensures
        match r {
            Some(ir) => {
                &&& first_binop(t@, op) == Some(ir.0 as int)
                &&& binop_at(t@, op, ir.0 as int)
                &&& ir.1 == binop_replacement(t@, op, ir.0 as int)
            },
            None => first_binop(t@, op) is None,
        },
{
    let mut j: usize = 0;
    while j < t.len()
        invariant
            j <= t@.len(),
            first_binop(t@, op) == first_binop_from(t@, op, j as int),
        decreases t@.len() - j,
    {
        if t.len() - j >= 3 {
            let op_matches = is_op(&t[j + 1], op);
            if op_matches {
                match (&t[j], &t[j + 2]) {
                    (SubExpr::S(l), SubExpr::S(r)) => {
                        let node = match op {
                            BinOp::Pow => Expr::Pow(Box::new(l.clone()), Box::new(r.clone())),
                            BinOp::Mul => Expr::Mul(Box::new(l.clone()), Box::new(r.clone())),
                            BinOp::Div => Expr::Div(Box::new(l.clone()), Box::new(r.clone())),
                            BinOp::Add => Expr::Add(Box::new(l.clone()), Box::new(r.clone())),
                            BinOp::Sub => Expr::Sub(Box::new(l.clone()), Box::new(r.clone())),
                        };
                        return Some((j, SubExpr::S(node)));
                    },
                    _ => {},
                }
            }
        }
        proof {
            assert(!binop_at(t@, op, j as int));
        }
        j = j + 1;
    }
    None
}

/// Splices the matched window, `w` tokens from `i`, into `rep`.
#[verifier::loop_isolation(false)]
fn splice_tokens(t: Vec<SubExpr>, i: usize, w: usize, rep: SubExpr) -> (r: Vec<SubExpr>)
    requires
        i + w <= t@.len(),
    ensures
        r@ == splice(t@, i as int, w as int, rep),
{
    let ghost rep_v = rep;
    let tl = t.len();
    let mut r: Vec<SubExpr> = Vec::new();
    let mut k: usize = 0;
    proof {
        assert(r@ =~= t@.take(0));
    }
    while k < i
        invariant
            k <= i,
            r@ == t@.take(k as int),
        decreases i - k,
    {
        r.push(t[k].clone());
        proof {
            assert(r@ =~= t@.take(k + 1));
        }
        k = k + 1;
    }
    r.push(rep);
    proof {
        assert(r@ =~= t@.take(i as int) + seq![rep_v] + t@.skip(i + w).take(0));
    }
    let mut k2: usize = i + w;
    while k2 < tl
        invariant
            i + w <= k2 <= t@.len(),
            r@ == t@.take(i as int) + seq![rep_v] + t@.skip(i + w).take(k2 - (i + w)),
        decreases t@.len() - k2,
    {
        r.push(t[k2].clone());
        proof {
            assert(r@ =~= t@.take(i as int) + seq![rep_v] + t@.skip(i + w).take(
                k2 + 1 - (i + w),
            ));
        }
        k2 = k2 + 1;
    }
    proof {
        assert(t@.skip(i + w).take(t@.len() - (i + w)) =~= t@.skip(i + w));
    }
    r
}

/// Reduces the token sequence to a single expression, or reports the
/// residual sequence on which no pattern matched.
#[verifier::loop_isolation(false)]
pub fn parse(tokens: Vec<SubExpr>) -> (r: Result<Expr, ParseError>)
    ensures
        match r {
            Ok(e) => spec_parse(tokens@) == Ok::<Expr, Seq<SubExpr>>(e),
            Err(pe) => {
                &&& spec_parse(tokens@) is Err
                &&& pe.residual@ == spec_parse(tokens@)->Err_0
            },
        },
{
    let mut cur = tokens;
    loop
        invariant
            spec_parse(tokens@) == spec_parse(cur@),
        decreases cur@.len(),
    {
        if cur.len() == 1 {
            match &cur[0] {
                SubExpr::S(e) => {
                    return Ok(e.clone());
                },
                _ => {},
            }
        }
        if let Some((i, rep)) = find_func_app(&cur) {
            cur = splice_tokens(cur, i, 4, rep);
        } else if let Some((i, rep)) = find_parens(&cur) {
            cur = splice_tokens(cur, i, 3, rep);
        } else if let Some((i, rep)) = find_binop(&cur, BinOp::Pow) {
            cur = splice_tokens(cur, i, 3, rep);
        } else if let Some((i, rep)) = find_binop(&cur, BinOp::Mul) {
            cur = splice_tokens(cur, i, 3, rep);
        } else if let Some((i, rep)) = find_binop(&cur, BinOp::Div) {
            cur = splice_tokens(cur, i, 3, rep);
        } else if let Some((i, rep)) = find_binop(&cur, BinOp::Add) {
            cur = splice_tokens(cur, i, 3, rep);
        } else if let Some((i, rep)) = find_binop(&cur, BinOp::Sub) {
            cur = splice_tokens(cur, i, 3, rep);
        } else {
            return Err(ParseError { residual: cur });
        }
    }
}

} // verus!
