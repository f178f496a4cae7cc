//! The tokenizer: raw text to an ordered token sequence. Spaces are
//! stripped first; single characters map to operator and parenthesis
//! tokens; a maximal run of decimal digits becomes one constant token; a
//! maximal run of letters becomes a variable, Euler's constant, or a
//! pending function name; a synthetic multiplication token is inserted
//! between a constant and an immediately following letter or opening
//! parenthesis. Characters of no recognized class are skipped.

use vstd::prelude::*;

use crate::expr::Expr;
use crate::subexpr::{SubExpr, TokenView};
use crate::text::chars_to_string;

verus! {

/// Why tokenization failed.
#[derive(Debug, PartialEq, Eq, Clone, Copy)]
pub enum LexError {
    /// A run of decimal digits denotes a number too large for a constant.
    NumberTooLarge,
}

/// An ASCII decimal digit.
pub open spec fn is_digit(c: char) -> bool {
    48 <= c as u32 && c as u32 <= 57
}

/// An ASCII letter.
pub open spec fn is_letter(c: char) -> bool {
    (65 <= c as u32 && c as u32 <= 90) || (97 <= c as u32 && c as u32 <= 122)
}

/// An operator or parenthesis character, mapped to its token shape.
pub open spec fn operator_token(c: char) -> Option<TokenView> {
    if c == '^' {
        Some(TokenView::Pow)
    } else if c == '*' {
        Some(TokenView::Mul)
    } else if c == '+' {
        Some(TokenView::Plus)
    } else if c == '-' {
        Some(TokenView::Minus)
    } else if c == '(' {
        Some(TokenView::OpenPar)
    } else if c == ')' {
        Some(TokenView::ClosePar)
    } else if c == '/' {
        Some(TokenView::Div)
    } else {
        None
    }
}

/// The numeric value of a decimal digit character.
pub open spec fn digit_val(c: char) -> nat {
    (c as u32 - 48) as nat
}

/// The characters of `s` with every space removed.
pub open spec fn strip_spaces(s: Seq<char>) -> Seq<char>
    decreases s.len(),
{
    if s.len() == 0 {
        Seq::empty()
    } else if s.last() == ' ' {
        strip_spaces(s.drop_last())
    } else {
        strip_spaces(s.drop_last()).push(s.last())
    }
}

/// The value of a run of decimal digits, accumulated positionally in
/// base ten.
pub open spec fn digits_val(ds: Seq<char>) -> nat
    decreases ds.len(),
{
    if ds.len() == 0 {
        0
    } else {
        digits_val(ds.drop_last()) * 10 + digit_val(ds.last())
    }
}

/// The value of a digit run never shrinks as more digits follow.
pub proof fn lemma_digits_val_prefix(ds: Seq<char>, m: int)
    requires
        0 <= m <= ds.len(),
    ensures
        digits_val(ds.take(m)) <= digits_val(ds),
    decreases ds.len(),
{
    if m < ds.len() {
        assert(ds.take(m) =~= ds.drop_last().take(m));
        lemma_digits_val_prefix(ds.drop_last(), m);
    } else {
        assert(ds.take(m) =~= ds);
    }
}

/// The length of the maximal prefix of decimal digits.
pub open spec fn digit_run_len(cs: Seq<char>) -> int
    decreases cs.len(),
{
    if cs.len() == 0 || !is_digit(cs[0]) {
        0
    } else {
        1 + digit_run_len(cs.drop_first())
    }
}

/// The length of the maximal prefix of letters.
pub open spec fn letter_run_len(cs: Seq<char>) -> int
    decreases cs.len(),
{
    if cs.len() == 0 || !is_letter(cs[0]) {
        0
    } else {
        1 + letter_run_len(cs.drop_first())
    }
}

pub proof fn lemma_digit_run_len_bounds(cs: Seq<char>)
    ensures
        0 <= digit_run_len(cs) <= cs.len(),
    decreases cs.len(),
{
    if cs.len() > 0 && is_digit(cs[0]) {
        lemma_digit_run_len_bounds(cs.drop_first());
    }
}

pub proof fn lemma_letter_run_len_bounds(cs: Seq<char>)
    ensures
        0 <= letter_run_len(cs) <= cs.len(),
    decreases cs.len(),
{
    if cs.len() > 0 && is_letter(cs[0]) {
        lemma_letter_run_len_bounds(cs.drop_first());
    }
}

/// The maximal digit prefix is exactly the one whose characters are all
/// digits and which is followed by no digit.
pub proof fn lemma_digit_run_len_is(cs: Seq<char>, m: int)
    requires
        0 <= m <= cs.len(),
        forall|k: int| 0 <= k < m ==> is_digit(cs[k]),
        m < cs.len() ==> !is_digit(cs[m]),
    ensures
        digit_run_len(cs) == m,
    decreases cs.len(),
{
    if m == 0 {
    } else {
        assert(is_digit(cs[0]));
        assert(forall|k: int| 0 <= k < m - 1 ==> is_digit(cs.drop_first()[k]));
        lemma_digit_run_len_is(cs.drop_first(), m - 1);
    }
}

/// A digit run keeps at least its first `m` characters when they are all
/// digits.
pub proof fn lemma_digit_run_len_at_least(cs: Seq<char>, m: int)
    requires
        0 <= m <= cs.len(),
        forall|k: int| 0 <= k < m ==> is_digit(cs[k]),
    ensures
        digit_run_len(cs) >= m,
    decreases cs.len(),
{
    lemma_digit_run_len_bounds(cs);
    if m > 0 {
        assert(is_digit(cs[0]));
        assert(forall|k: int| 0 <= k < m - 1 ==> is_digit(cs.drop_first()[k]));
        lemma_digit_run_len_at_least(cs.drop_first(), m - 1);
        assert(digit_run_len(cs) == 1 + digit_run_len(cs.drop_first()));
    }
}

/// The maximal letter prefix is exactly the one whose characters are all
/// letters and which is followed by no letter.
pub proof fn lemma_letter_run_len_is(cs: Seq<char>, m: int)
    requires
        0 <= m <= cs.len(),
        forall|k: int| 0 <= k < m ==> is_letter(cs[k]),
        m < cs.len() ==> !is_letter(cs[m]),
    ensures
        letter_run_len(cs) == m,
    decreases cs.len(),
{
    if m == 0 {
    } else {
        assert(is_letter(cs[0]));
        assert(forall|k: int| 0 <= k < m - 1 ==> is_letter(cs.drop_first()[k]));
        lemma_letter_run_len_is(cs.drop_first(), m - 1);
    }
}

/// Prepends already-emitted tokens to the outcome of scanning the rest.
pub open spec fn with_tokens_before(
    pre: Seq<TokenView>,
    r: Result<Seq<TokenView>, LexError>,
) -> Result<Seq<TokenView>, LexError> {
    match r {
        Ok(toks) => Ok(pre + toks),
        Err(e) => Err(e),
    }
}

/// The token sequence of a space-free character sequence, scanned left
/// to right: operator and parenthesis characters map to their tokens; a
/// maximal digit run becomes one constant token, failing if its value
/// does not fit a constant, and is followed by a synthetic
/// multiplication token when a letter or an opening parenthesis comes
/// next; a letter followed by another letter or an opening parenthesis
/// opens a maximal letter run that becomes a pending function name; any
/// other single letter becomes Euler's constant for `e` and a variable
/// otherwise; an unrecognized character is skipped.
pub open spec fn spec_scan(cs: Seq<char>) -> Result<Seq<TokenView>, LexError>
    decreases cs.len(),
    via spec_scan_decreases
{
    if cs.len() == 0 {
        Ok(Seq::empty())
    } else {
        let c = cs[0];
        match operator_token(c) {
            Some(t) => with_tokens_before(seq![t], spec_scan(cs.drop_first())),
            None => if is_digit(c) {
                let n = digit_run_len(cs);
                let v = digits_val(cs.take(n));
                if v > u32::MAX as nat {
                    Err(LexError::NumberTooLarge)
                } else {
                    let rest = cs.skip(n);
                    let tail = if rest.len() > 0 && (is_letter(rest[0]) || rest[0] == '(') {
                        with_tokens_before(seq![TokenView::Mul], spec_scan(rest))
                    } else {
                        spec_scan(rest)
                    };
                    with_tokens_before(seq![TokenView::S(Expr::Const(v as u32))], tail)
                }
            } else if is_letter(c) {
                if cs.len() >= 2 && (is_letter(cs[1]) || cs[1] == '(') {
                    let n = letter_run_len(cs);
                    with_tokens_before(seq![TokenView::F(cs.take(n))], spec_scan(cs.skip(n)))
                } else {
                    let t = if c == 'e' {
                        TokenView::S(Expr::E)
                    } else {
                        TokenView::S(Expr::Var(c))
                    };
                    with_tokens_before(seq![t], spec_scan(cs.drop_first()))
                }
            } else {
                spec_scan(cs.drop_first())
            },
        }
    }
}

#[via_fn]
proof fn spec_scan_decreases(cs: Seq<char>) {
    if cs.len() > 0 {
        lemma_digit_run_len_bounds(cs);
        lemma_letter_run_len_bounds(cs);
        lemma_digit_run_len_bounds(cs.drop_first());
        lemma_letter_run_len_bounds(cs.drop_first());
        if is_digit(cs[0]) {
            assert(digit_run_len(cs) >= 1);
        }
        if is_letter(cs[0]) {
            assert(letter_run_len(cs) >= 1);
        }
    }
}

/// The token sequence of a text: spaces are stripped, then the rest is
/// scanned.
pub open spec fn spec_tokenize(s: Seq<char>) -> Result<Seq<TokenView>, LexError> {
    spec_scan(strip_spaces(s))
}

/// Scanning from an operator or parenthesis emits its token and goes on
/// behind it.
proof fn lemma_scan_operator(cs: Seq<char>, i: int, t: TokenView)
    requires
        0 <= i < cs.len(),
        operator_token(cs[i]) == Some(t),
    ensures
        spec_scan(cs.skip(i)) == with_tokens_before(seq![t], spec_scan(cs.skip(i + 1))),
{
    assert(cs.skip(i)[0] == cs[i]);
    assert(cs.skip(i).drop_first() =~= cs.skip(i + 1));
}

/// Scanning from an unrecognized character skips it.
proof fn lemma_scan_skip(cs: Seq<char>, i: int)
    requires
        0 <= i < cs.len(),
        operator_token(cs[i]) is None,
        !is_digit(cs[i]),
        !is_letter(cs[i]),
    ensures
        spec_scan(cs.skip(i)) == spec_scan(cs.skip(i + 1)),
{
    assert(cs.skip(i)[0] == cs[i]);
    assert(cs.skip(i).drop_first() =~= cs.skip(i + 1));
}

/// Scanning from a single letter emits Euler's constant or a variable
/// and goes on behind it.
proof fn lemma_scan_single_letter(cs: Seq<char>, i: int, t: TokenView)
    requires
        0 <= i < cs.len(),
        is_letter(cs[i]),
        i + 1 < cs.len() ==> !is_letter(cs[i + 1]) && cs[i + 1] != '(',
        t == (if cs[i] == 'e' {
            TokenView::S(Expr::E)
        } else {
            TokenView::S(Expr::Var(cs[i]))
        }),
    ensures
        spec_scan(cs.skip(i)) == with_tokens_before(seq![t], spec_scan(cs.skip(i + 1))),
{
    let rest = cs.skip(i);
    assert(rest[0] == cs[i]);
    assert(operator_token(cs[i]) is None);
    if rest.len() >= 2 {
        assert(rest[1] == cs[i + 1]);
    }
    assert(rest.drop_first() =~= cs.skip(i + 1));
}

/// Scanning from the first letter of a name run emits the pending
/// function name and goes on behind the run.
proof fn lemma_scan_name(cs: Seq<char>, i: int, j: int)
    requires
        0 <= i < cs.len(),
        is_letter(cs[i]),
        i + 1 < cs.len(),
        is_letter(cs[i + 1]) || cs[i + 1] == '(',
        i < j <= cs.len(),
        j - i == letter_run_len(cs.skip(i)),
    ensures
        spec_scan(cs.skip(i)) == with_tokens_before(
            seq![TokenView::F(cs.subrange(i, j))],
            spec_scan(cs.skip(j)),
        ),
{
    let rest = cs.skip(i);
    assert(rest[0] == cs[i]);
    assert(rest[1] == cs[i + 1]);
    assert(operator_token(cs[i]) is None);
    assert(rest.take(j - i) =~= cs.subrange(i, j));
    assert(rest.skip(j - i) =~= cs.skip(j));
}

/// Scanning from a digit whose maximal run fits a constant emits that
/// constant, a multiplication token when a letter or an opening
/// parenthesis follows, and goes on behind the run.
proof fn lemma_scan_number_ok(cs: Seq<char>, i: int, j: int, val: u32)
    requires
        0 <= i < cs.len(),
        is_digit(cs[i]),
        i < j <= cs.len(),
        j - i == digit_run_len(cs.skip(i)),
        val == digits_val(cs.subrange(i, j)),
    ensures
        spec_scan(cs.skip(i)) == with_tokens_before(
            seq![TokenView::S(Expr::Const(val))],
            if j < cs.len() && (is_letter(cs[j]) || cs[j] == '(') {
                with_tokens_before(seq![TokenView::Mul], spec_scan(cs.skip(j)))
            } else {
                spec_scan(cs.skip(j))
            },
        ),
{
    let rest = cs.skip(i);
    assert(rest[0] == cs[i]);
    assert(operator_token(cs[i]) is None);
    assert(rest.take(j - i) =~= cs.subrange(i, j));
    assert(rest.skip(j - i) =~= cs.skip(j));
    if j < cs.len() {
        assert(rest.skip(j - i)[0] == cs[j]);
    }
}

/// Scanning from a digit whose maximal run does not fit a constant
/// fails.
proof fn lemma_scan_number_err(cs: Seq<char>, i: int)
    requires
        0 <= i < cs.len(),
        is_digit(cs[i]),
        digits_val(cs.skip(i).take(digit_run_len(cs.skip(i)))) > u32::MAX as nat,
    ensures
        spec_scan(cs.skip(i)) == Err::<Seq<TokenView>, LexError>(LexError::NumberTooLarge),
{
    let rest = cs.skip(i);
    assert(rest[0] == cs[i]);
    assert(operator_token(cs[i]) is None);
}

/// One scanning step: when the remaining input scans as some token
/// shapes followed by a tail, the emitted prefix absorbs those shapes.
proof fn lemma_scan_step(
    full: Result<Seq<TokenView>, LexError>,
    pre: Seq<TokenView>,
    mid: Seq<TokenView>,
    rest_r: Result<Seq<TokenView>, LexError>,
    tail_r: Result<Seq<TokenView>, LexError>,
)
    requires
        full == with_tokens_before(pre, rest_r),
        rest_r == with_tokens_before(mid, tail_r),
    ensures
        full == with_tokens_before(pre + mid, tail_r),
{
    match tail_r {
        Ok(toks) => {
            assert(pre + (mid + toks) =~= (pre + mid) + toks);
        },
        Err(_) => {},
    }
}

fn is_digit_char(c: char) -> (r: bool)
    ensures
        r == is_digit(c),
{
    let u = c as u32;
    48 <= u && u <= 57
}

fn is_letter_char(c: char) -> (r: bool)
    ensures
        r == is_letter(c),
{
    let u = c as u32;
    (65 <= u && u <= 90) || (97 <= u && u <= 122)
}

fn char_digit(c: char) -> (d: u32)
    requires
        is_digit(c),
    ensures
        d == digit_val(c),
{
    c as u32 - 48
}

/// One positional accumulation step, `val * 10 + d`, or nothing when the
/// result does not fit.
fn mul10_add(val: u32, d: u32) -> (r: Option<u32>)
    ensures
        match r {
            Some(v) => v == val * 10 + d,
            None => val * 10 + d > u32::MAX,
        },
{
    match val.checked_mul(10) {
        Some(v10) => v10.checked_add(d),
        None => None,
    }
}

/// Emits the token of a single letter that opens no function name:
/// Euler's constant for `e`, a variable otherwise.
fn emit_single_letter(
    toks: &mut Vec<SubExpr>,
    c: char,
    Ghost(cs): Ghost<Seq<char>>,
    Ghost(i): Ghost<int>,
    Ghost(full_r): Ghost<Result<Seq<TokenView>, LexError>>,
)
    requires
        0 <= i < cs.len(),
        c == cs[i],
        is_letter(c),
        i + 1 < cs.len() ==> !is_letter(cs[i + 1]) && cs[i + 1] != '(',
        full_r == with_tokens_before(old(toks).deep_view(), spec_scan(cs.skip(i))),
    ensures
        full_r == with_tokens_before(final(toks).deep_view(), spec_scan(cs.skip(i + 1))),
{
    let t: SubExpr = if c == 'e' {
        SubExpr::S(Expr::E)
    } else {
        SubExpr::S(Expr::Var(c))
    };
    let ghost mid = seq![t@];
    proof {
        lemma_scan_single_letter(cs, i, t@);
        lemma_scan_step(
            full_r,
            toks.deep_view(),
            mid,
            spec_scan(cs.skip(i)),
            spec_scan(cs.skip(i + 1)),
        );
    }
    push_token(toks, t);
}

/// Appends one token, extending the emitted token shapes by its view.
fn push_token(toks: &mut Vec<SubExpr>, t: SubExpr)
    ensures
        final(toks).deep_view() == old(toks).deep_view() + seq![t@],
{
    let ghost old_dv = toks.deep_view();
    let ghost tv = t@;
    toks.push(t);
    proof {
        assert(toks.deep_view() =~= old_dv + seq![tv]);
    }
}

/// Accumulates the maximal digit run starting at `start` into one
/// constant value, or reports that the run's value does not fit.
#[verifier::loop_isolation(false)]
fn scan_number(cs: &Vec<char>, start: usize) -> (r: Result<(u32, usize), LexError>)
    requires
        start < cs@.len(),
        is_digit(cs@[start as int]),
    ensures
        match r {
            Ok((val, j)) => {
                &&& start < j <= cs@.len()
                &&& j - start == digit_run_len(cs@.skip(start as int))
                &&& val == digits_val(cs@.subrange(start as int, j as int))
            },
            Err(e) => {
                &&& e == LexError::NumberTooLarge
                &&& digits_val(
                    cs@.skip(start as int).take(digit_run_len(cs@.skip(start as int))),
                ) > u32::MAX as nat
            },
        },
{
    let ghost rest = cs@.skip(start as int);
    let len = cs.len();
    let c = cs[start];
    let mut val: u32 = char_digit(c);
    let mut j: usize = start + 1;
    proof {
        assert(cs@.subrange(start as int, j as int) =~= seq![c]);
        assert(seq![c].drop_last() =~= Seq::<char>::empty());
        assert(digits_val(Seq::<char>::empty()) == 0);
        assert(digits_val(seq![c]) == digit_val(c));
    }
    loop
        invariant
            start < j <= cs.len(),
            forall|k: int| start <= k < j ==> is_digit(cs@[k]),
            val == digits_val(cs@.subrange(start as int, j as int)),
        decreases cs.len() - j,
    {
        if j == len {
            break ;
        }
        let d = cs[j];
        if !is_digit_char(d) {
            break ;
        }
        let dv = char_digit(d);
        proof {
            assert(cs@.subrange(start as int, j + 1).drop_last() =~= cs@.subrange(
                start as int,
                j as int,
            ));
        }
        match mul10_add(val, dv) {
            Some(v) => {
                val = v;
                j = j + 1;
            },
            None => {
                proof {
                    assert(digits_val(cs@.subrange(start as int, j + 1)) > u32::MAX as nat);
                    assert(forall|k: int| 0 <= k < j + 1 - start ==> is_digit(rest[k]));
                    lemma_digit_run_len_at_least(rest, j + 1 - start);
                    lemma_digit_run_len_bounds(rest);
                    let rn = digit_run_len(rest);
                    assert(rest.take(rn).take(j + 1 - start) =~= rest.take(j + 1 - start));
                    lemma_digits_val_prefix(rest.take(rn), j + 1 - start);
                    assert(rest.take(j + 1 - start) =~= cs@.subrange(start as int, j + 1));
                }
                return Err(LexError::NumberTooLarge);
            },
        }
    }
    proof {
        assert(forall|k: int| 0 <= k < j - start ==> is_digit(rest[k]));
        if j < cs.len() {
            assert(rest[j - start] == cs@[j as int]);
        }
        lemma_digit_run_len_is(rest, j - start);
    }
    Ok((val, j))
}

/// Collects the maximal letter run starting at `start` into a pending
/// function name.
#[verifier::loop_isolation(false)]
fn scan_name(cs: &Vec<char>, start: usize) -> (r: (String, usize))
    requires
        start < cs@.len(),
        is_letter(cs@[start as int]),
    ensures
        start < r.1 <= cs@.len(),
        r.1 - start == letter_run_len(cs@.skip(start as int)),
        r.0@ == cs@.subrange(start as int, r.1 as int),
{
    let ghost rest = cs@.skip(start as int);
    let len = cs.len();
    let c = cs[start];
    let mut name_chars: Vec<char> = Vec::new();
    name_chars.push(c);
    let mut j: usize = start + 1;
    proof {
        assert(name_chars@ =~= cs@.subrange(start as int, j as int));
    }
    loop
        invariant
            start < j <= cs.len(),
            forall|k: int| start <= k < j ==> is_letter(cs@[k]),
            name_chars@ == cs@.subrange(start as int, j as int),
        decreases cs.len() - j,
    {
        if j == len {
            break ;
        }
        let d = cs[j];
        if !is_letter_char(d) {
            break ;
        }
        name_chars.push(d);
        proof {
            assert(name_chars@ =~= cs@.subrange(start as int, j + 1));
        }
        j = j + 1;
    }
    proof {
        assert(forall|k: int| 0 <= k < j - start ==> is_letter(rest[k]));
        if j < cs.len() {
            assert(rest[j - start] == cs@[j as int]);
        }
        lemma_letter_run_len_is(rest, j - start);
    }
    let name = chars_to_string(&name_chars);
    (name, j)
}

/// Strips the spaces out of the text, one character vector in, one out.
#[verifier::loop_isolation(false)]
fn stripped_chars(s: &str) -> (cs: Vec<char>)
    ensures
        cs@ == strip_spaces(s@),
{
    let n = s.unicode_len();
    let mut cs: Vec<char> = Vec::new();
    for i in 0..n
        invariant
            n == s@.len(),
            cs@ == strip_spaces(s@.take(i as int)),
    {
        let c = s.get_char(i);
        proof {
            assert(s@.take(i + 1).drop_last() =~= s@.take(i as int));
        }
        if c != ' ' {
            cs.push(c);
        }
    }
    proof {
        assert(s@.take(n as int) =~= s@);
    }
    cs
}

/// Turns the text into its token sequence, or reports that a digit run
/// denotes a number too large for a constant. Unrecognized characters
/// are skipped.
#[verifier::loop_isolation(false)]
pub fn tokenize(s: String) -> (r: Result<Vec<SubExpr>, LexError>)
    ensures
        match r {
            Ok(toks) => spec_tokenize(s@) == Ok::<Seq<TokenView>, LexError>(toks.deep_view()),
            Err(e) => spec_tokenize(s@) == Err::<Seq<TokenView>, LexError>(e),
        },
{
    let cs = stripped_chars(s.as_str());
    let ghost full_r = spec_scan(cs@);
    let mut toks: Vec<SubExpr> = Vec::new();
    let mut i: usize = 0;
    proof {
        assert(toks.deep_view() =~= Seq::<TokenView>::empty());
        assert(cs@.skip(0) =~= cs@);
        match full_r {
            Ok(ts) => {
                assert(Seq::<TokenView>::empty() + ts =~= ts);
            },
            Err(_) => {},
        }
    }
    while i < cs.len()
        invariant
            i <= cs.len(),
            full_r == with_tokens_before(toks.deep_view(), spec_scan(cs@.skip(i as int))),
        decreases cs.len() - i,
    {
        let ghost old_dv = toks.deep_view();
        let c = cs[i];
        let op: Option<SubExpr> = match c {
            '^' => Some(SubExpr::Pow),
            '*' => Some(SubExpr::Mul),
            '+' => Some(SubExpr::Plus),
            '-' => Some(SubExpr::Minus),
            '(' => Some(SubExpr::OpenPar),
            ')' => Some(SubExpr::ClosePar),
            '/' => Some(SubExpr::Div),
            _ => None,
        };
        if let Some(t) = op {
            let ghost mid = seq![t@];
            proof {
                lemma_scan_operator(cs@, i as int, t@);
                lemma_scan_step(
                    full_r,
                    old_dv,
                    mid,
                    spec_scan(cs@.skip(i as int)),
                    spec_scan(cs@.skip(i + 1)),
                );
            }
            push_token(&mut toks, t);
            i = i + 1;
        } else if is_digit_char(c) {
            match scan_number(&cs, i) {
                Err(e) => {
                    proof {
                        lemma_scan_number_err(cs@, i as int);
                    }
                    return Err(e);
                },
                Ok((val, j)) => {
                    let with_mul: bool = if j < cs.len() {
                        let next = cs[j];
                        is_letter_char(next) || next == '('
                    } else {
                        false
                    };
                    let t = SubExpr::S(Expr::Const(val));
                    let ghost mid = seq![t@];
                    let ghost tail_r = if with_mul {
                        with_tokens_before(seq![TokenView::Mul], spec_scan(cs@.skip(j as int)))
                    } else {
                        spec_scan(cs@.skip(j as int))
                    };
                    proof {
                        lemma_scan_number_ok(cs@, i as int, j as int, val);
                        assert(spec_scan(cs@.skip(i as int)) == with_tokens_before(mid, tail_r));
                        lemma_scan_step(full_r, old_dv, mid, spec_scan(cs@.skip(i as int)), tail_r);
                    }
                    push_token(&mut toks, t);
                    if with_mul {
                        let m = SubExpr::Mul;
                        let ghost mid2 = seq![m@];
                        proof {
                            lemma_scan_step(
                                full_r,
                                old_dv + mid,
                                mid2,
                                tail_r,
                                spec_scan(cs@.skip(j as int)),
                            );
                        }
                        push_token(&mut toks, m);
                    }
                    i = j;
                },
            }
        } else if is_letter_char(c) {
            let two: bool = if i + 1 < cs.len() {
                let next = cs[i + 1];
                is_letter_char(next) || next == '('
            } else {
                false
            };
            if two {
                let (name, j) = scan_name(&cs, i);
                let t = SubExpr::F(name);
                let ghost mid = seq![t@];
                proof {
                    lemma_scan_name(cs@, i as int, j as int);
                    assert(spec_scan(cs@.skip(i as int)) == with_tokens_before(
                        mid,
                        spec_scan(cs@.skip(j as int)),
                    ));
                    lemma_scan_step(
                        full_r,
                        old_dv,
                        mid,
                        spec_scan(cs@.skip(i as int)),
                        spec_scan(cs@.skip(j as int)),
                    );
                }
                push_token(&mut toks, t);
                i = j;
            } else {
                emit_single_letter(&mut toks, c, Ghost(cs@), Ghost(i as int), Ghost(full_r));
                i = i + 1;
            }
        } else {
            proof {
                lemma_scan_skip(cs@, i as int);
            }
            i = i + 1;
        }
    }
    proof {
        assert(cs@.skip(i as int) =~= Seq::<char>::empty());
        assert(toks.deep_view() + Seq::<TokenView>::empty() =~= toks.deep_view());
    }
    Ok(toks)
}

} // verus!
