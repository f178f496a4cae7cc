use rsde::expr::{cos, num, sin, tan, var, Expr};
use rsde::out::{latex, standard, Out};

#[test]
fn standard_renders_coefficient_juxtaposition() {
    let expr = num(10).times(var('x'));
    assert_eq!(standard().output(&expr), Ok("10x".to_string()));
}

#[test]
fn standard_renders_variable_on_the_left_last() {
    let expr = var('x').times(num(10));
    assert_eq!(standard().output(&expr), Ok("10x".to_string()));
}

#[test]
fn standard_parenthesizes_binary_operators() {
    let expr = num(1).plus(num(2)).minus(num(3));
    assert_eq!(standard().output(&expr), Ok("((1 + 2) - 3)".to_string()));
}

#[test]
fn standard_renders_power_and_division() {
    let expr = var('x').pow(num(2)).div(num(3));
    assert_eq!(standard().output(&expr), Ok("((x^2) / 3)".to_string()));
}

#[test]
fn standard_renders_negation_function_and_euler() {
    let expr = sin(var('x')).times(Expr::E.neg());
    assert_eq!(standard().output(&expr), Ok("(sin(x) * -e)".to_string()));
}

#[test]
fn latex_renders_constants_in_braces() {
    assert_eq!(latex().output(&num(12)), Ok("{12}".to_string()));
}

#[test]
fn latex_renders_division_as_fraction() {
    let expr = num(1).div(num(2));
    assert_eq!(latex().output(&expr), Ok("\\frac{{1}}{{2}}".to_string()));
}

#[test]
fn latex_renders_power_with_spaced_caret() {
    let expr = var('x').pow(num(2));
    assert_eq!(latex().output(&expr), Ok("x ^ {2}".to_string()));
}

#[test]
fn latex_juxtaposes_coefficient_and_power_base_variable() {
    // the variable-follows check accepts a power whose base is one
    let expr = num(2).times(var('x').pow(num(3)));
    assert_eq!(latex().output(&expr), Ok("{2}x ^ {3}".to_string()));
}

#[test]
fn latex_juxtaposes_function_operands() {
    let expr = cos(var('x')).times(num(3));
    assert_eq!(latex().output(&expr), Ok("{3}cos(x)".to_string()));
}

#[test]
fn latex_spells_out_multiplication_without_sums() {
    let expr = num(2).times(num(3));
    assert_eq!(latex().output(&expr), Ok("{2} * {3}".to_string()));
}

#[test]
fn latex_parenthesizes_multiplication_of_sums() {
    let expr = num(1).plus(num(2)).times(num(3).minus(num(4)));
    assert_eq!(
        latex().output(&expr),
        Ok("(({1} + {2}) * ({3} - {4}))".to_string())
    );
}

#[test]
fn renderers_spell_function_names() {
    let expr = tan(var('y'));
    assert_eq!(standard().output(&expr), Ok("tan(y)".to_string()));
    assert_eq!(latex().output(&expr), Ok("tan(y)".to_string()));
}
