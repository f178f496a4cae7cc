use rsde::expr::{cos, func, num, sin, var, Expr};

#[test]
fn arithmetic_over_constants_is_effectively_constant() {
    let expr = num(1)
        .plus(num(2))
        .times(num(3).minus(Expr::E))
        .div(num(4).pow(num(5)))
        .neg();
    assert!(expr.is_effectively_constant());
}

#[test]
fn a_variable_anywhere_makes_the_tree_not_constant() {
    let expr = num(1).plus(num(2).times(var('x').pow(num(2))));
    assert!(!expr.is_effectively_constant());
}

#[test]
fn a_function_is_never_effectively_constant() {
    // conservative by design, whatever the argument holds
    let expr = sin(num(1)).plus(num(2));
    assert!(!expr.is_effectively_constant());
}

#[test]
fn structural_equality_is_recursive() {
    let a = func("f", var('x').plus(num(1)));
    let b = func("f", var('x').plus(num(1)));
    let c = func("g", var('x').plus(num(1)));
    assert_eq!(a, b);
    assert_ne!(a, c);
    assert_ne!(a, cos(var('x').plus(num(1))));
}

#[test]
fn neg_unwraps_a_negation() {
    assert_eq!(num(3).neg().neg(), num(3));
    assert_eq!(num(3).neg(), Expr::Neg(Box::new(num(3))));
}

#[test]
fn clone_is_a_deep_copy() {
    let original = func("f", var('x').pow(num(2)).neg());
    let copy = original.clone();
    assert_eq!(original, copy);
}
