use rsde::expr::{num, sin, var, Expr};
use rsde::parser::parse;
use rsde::subexpr::SubExpr;
use rsde::token::tokenize;

fn parse_text(s: &str) -> Result<Expr, Vec<SubExpr>> {
    let toks = tokenize(s.to_string()).expect("tokenization should succeed");
    parse(toks).map_err(|e| e.residual)
}

#[test]
fn parse_single_constant() {
    assert_eq!(parse_text("42"), Ok(num(42)));
}

#[test]
fn parse_respects_priority_order() {
    // multiplication collapses before addition
    let expected = num(1).plus(num(25).times(num(3)));
    assert_eq!(parse_text("1 + 25 * 3"), Ok(expected));
}

#[test]
fn parse_function_application() {
    let expected = num(2).times(sin(var('x')));
    assert_eq!(parse_text("2sin(x)"), Ok(expected));
}

#[test]
fn parse_parentheses_group_first() {
    let expected = num(2).times(var('x').plus(num(1)));
    assert_eq!(parse_text("2(x + 1)"), Ok(expected));
}

#[test]
fn parse_power_tower_collapses_leftmost_first() {
    // repeated leftmost matching gives (2^3)^2, not 2^(3^2)
    let expected = num(2).pow(num(3)).pow(num(2));
    assert_eq!(parse_text("2^3^2"), Ok(expected));
}

#[test]
fn parse_chained_subtraction_collapses_leftmost_first() {
    let expected = num(7).minus(num(3)).minus(num(2));
    assert_eq!(parse_text("7 - 3 - 2"), Ok(expected));
}

#[test]
fn parse_irreducible_sequence_reports_residual() {
    // two adjacent embedded expressions match no pattern
    let tokens = vec![SubExpr::S(num(1)), SubExpr::S(num(2))];
    let err = parse(tokens.clone()).expect_err("no pattern should match");
    assert_eq!(err.residual, tokens);
}

#[test]
fn parse_empty_sequence_fails() {
    let err = parse(Vec::new()).expect_err("nothing to reduce");
    assert_eq!(err.residual, Vec::new());
}

#[test]
fn parse_lone_operator_fails() {
    let tokens = vec![SubExpr::S(num(1)), SubExpr::Plus];
    let err = parse(tokens.clone()).expect_err("no pattern should match");
    assert_eq!(err.residual, tokens);
}
