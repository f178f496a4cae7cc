use rsde::derivative::DerivativeError;
use rsde::expr::{num, sin, var, Expr};

#[test]
fn derivative_of_constant_is_0() {
    let expr = num(10).times(num(12)).minus(num(3));
    let der = expr.derivative().with_respect_to('x');

    assert_eq!(der, Ok(num(0)))
}

#[test]
fn derivative_of_function_factor_is_unsupported() {
    // a function application never counts as effectively constant, and
    // no derivative rule exists for it, so even a numerically constant
    // product over sin(1) is refused rather than silently guessed
    let expr = num(10).times(num(12)).minus(num(3)).times(sin(num(1)));
    let der = expr.derivative().with_respect_to('x');

    assert_eq!(der, Err(DerivativeError::UnsupportedFunction))
}

#[test]
fn derivative_of_x_pow_n() {
    let x = var('x');
    let expr = x.clone().pow(num(10));
    let expected = num(10).times(x.pow(num(9)));

    assert_eq!(expr.derivative().with_respect_to('x'), Ok(expected))
}

#[test]
fn derivative_of_const_times_x() {
    let expr = num(10).times(var('x'));

    let expected = num(10);

    assert_eq!(
        expr.derivative()
            .with_respect_to('x')
            .map(|e| e.simplified()),
        Ok(expected)
    );
}

#[test]
fn derivative_of_addition() {
    let x = var('x');
    let lhs_exp = x.clone().pow(num(2)); // x^2
    let rhs_exp = num(10).times(x.clone()); // 10x

    let expr = lhs_exp.clone().plus(rhs_exp.clone());

    let der_result = expr.derivative().with_respect_to('x').map(Expr::simplified);
    let expected = num(2).times(x).plus(num(10));

    assert_eq!(der_result, Ok(expected));
}

#[test]
fn derivative_of_other_variable_fails() {
    let expr = var('y');
    assert_eq!(
        expr.derivative().with_respect_to('x'),
        Err(DerivativeError::OtherVariable)
    );
}

#[test]
fn derivative_of_general_power_fails() {
    let x = var('x');
    let expr = x.clone().pow(x);
    assert_eq!(
        expr.derivative().with_respect_to('x'),
        Err(DerivativeError::UnsupportedPower)
    );
}

#[test]
fn derivative_of_function_fails() {
    let expr = sin(var('x'));
    assert_eq!(
        expr.derivative().with_respect_to('x'),
        Err(DerivativeError::UnsupportedFunction)
    );
}

#[test]
fn derivative_of_quotient() {
    // (x / 2)' == (1*2 - 0*x) / 2^2
    let x = var('x');
    let expr = x.clone().div(num(2));
    let expected = num(1)
        .times(num(2))
        .minus(num(0).times(x))
        .div(num(2).pow(num(2)));
    assert_eq!(expr.derivative().with_respect_to('x'), Ok(expected));
}
