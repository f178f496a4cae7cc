use rsde::expr::{num, var, Expr};
use rsde::subexpr::SubExpr;
use rsde::token::{tokenize, LexError};

#[test]
fn tokenize_mixed_expression() {
    let toks = tokenize("1 + 25 * 3 / 2sin(x) * e".to_string());
    let expected = vec![
        SubExpr::S(num(1)),
        SubExpr::Plus,
        SubExpr::S(num(25)),
        SubExpr::Mul,
        SubExpr::S(num(3)),
        SubExpr::Div,
        SubExpr::S(num(2)),
        SubExpr::Mul, // synthetic: constant directly before a letter
        SubExpr::F("sin".to_string()),
        SubExpr::OpenPar,
        SubExpr::S(var('x')),
        SubExpr::ClosePar,
        SubExpr::Mul,
        SubExpr::S(Expr::E),
    ];
    assert_eq!(toks, Ok(expected));
}

#[test]
fn tokenize_implicit_mul_before_parenthesis() {
    let toks = tokenize("3(x)".to_string());
    let expected = vec![
        SubExpr::S(num(3)),
        SubExpr::Mul,
        SubExpr::OpenPar,
        SubExpr::S(var('x')),
        SubExpr::ClosePar,
    ];
    assert_eq!(toks, Ok(expected));
}

#[test]
fn tokenize_single_e_is_euler_constant() {
    assert_eq!(tokenize("e".to_string()), Ok(vec![SubExpr::S(Expr::E)]));
}

#[test]
fn tokenize_letter_before_parenthesis_is_a_function_name() {
    let toks = tokenize("f(x)".to_string());
    let expected = vec![
        SubExpr::F("f".to_string()),
        SubExpr::OpenPar,
        SubExpr::S(var('x')),
        SubExpr::ClosePar,
    ];
    assert_eq!(toks, Ok(expected));
}

#[test]
fn tokenize_skips_unrecognized_characters() {
    let toks = tokenize("1 ? 2".to_string());
    // '?' is of no recognized class; the digits around it form one
    // number once the spaces are stripped and the '?' is dropped
    let expected = vec![SubExpr::S(num(1)), SubExpr::S(num(2))];
    assert_eq!(toks, Ok(expected));
}

#[test]
fn tokenize_number_too_large_fails() {
    // ten digits over u32::MAX
    assert_eq!(
        tokenize("99999999999".to_string()),
        Err(LexError::NumberTooLarge)
    );
}

#[test]
fn tokenize_largest_constant() {
    assert_eq!(
        tokenize("4294967295".to_string()),
        Ok(vec![SubExpr::S(num(4294967295))])
    );
}
