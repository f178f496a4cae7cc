use rsde::expr::{func, num, var, Expr};
use rsde::simplify::simplify;

#[test]
fn test_add_0_is_self() -> Result<(), String> {
    let expr = simplify(num(12).plus(num(0)));
    if let Expr::Const(12) = expr {
        Ok(())
    } else {
        Err(format!("{:?} did not equal Const(12)", expr))
    }
}

#[test]
fn test_mul_0_is_0() -> Result<(), String> {
    let expr = simplify(num(12).times(num(0)));
    if let Expr::Const(0) = expr {
        Ok(())
    } else {
        Err(format!("{:?} did not equal Const(12)", expr))
    }
}

#[test]
fn test_mul_1_is_self() -> Result<(), String> {
    let expr = simplify(num(12).times(num(1)));
    if let Expr::Const(12) = expr {
        Ok(())
    } else {
        Err(format!("{:?} did not equal Const(12)", expr))
    }
}

#[test]
fn neg_of_neg_is_self() -> Result<(), String> {
    let expr = simplify(num(65).times(num(12).minus(num(6))));
    let double_negged = Expr::Neg(Box::new(Expr::Neg(Box::new(expr.clone()))));
    if expr == simplify(double_negged) {
        Ok(())
    } else {
        Err("double negation did not equal self!".into())
    }
}

#[test]
fn neg_of_0_is_0() -> Result<(), String> {
    let expr = simplify(Expr::Neg(Box::new(num(0))));
    if let Expr::Const(0) = expr {
        Ok(())
    } else {
        Err("Neg of 0 did not equal Const(0)".into())
    }
}

// 3 + (-2) => 3 - 2
#[test]
fn add_of_negated_rhs_is_sub() -> Result<(), String> {
    let expr = simplify(num(3).plus(num(2).neg()));
    let expected = Expr::Sub(Box::new(num(3)), Box::new(num(2)));
    if expr == expected {
        Ok(())
    } else {
        Err("add of negated arg did not equal sub".into())
    }
}

// -(3) + 2 => 2 - 3
#[test]
fn add_of_negated_lhs_is_sub() -> Result<(), String> {
    let expr = simplify(num(3).neg().plus(num(2)));
    let expected = Expr::Sub(Box::new(num(2)), Box::new(num(3)));
    if expr == expected {
        Ok(())
    } else {
        Err("add of negated arg did not equal sub".into())
    }
}

// 2 - -(3) => 2 + 3
#[test]
fn sub_of_negated_rhs_is_add() -> Result<(), String> {
    let expr = simplify(num(2).minus(num(3).neg()));
    let expected = num(2).plus(num(3));
    if expr == expected {
        Ok(())
    } else {
        Err("subtraction of negated arg did not equal sub".into())
    }
}

#[test]
fn expr_minus_self_is_0() -> Result<(), String> {
    let common = num(110).plus(num(2).times(var('x')).plus(num(77)));
    let expr = simplify(common.clone().minus(common));
    let expected = num(0);

    if expr == expected {
        Ok(())
    } else {
        Err("expression minus itself did not equal 0".into())
    }
}

#[test]
fn to_pow_1_is_self() -> Result<(), String> {
    // (x + 2)^1 => x + 2
    let expr = simplify(var('x').plus(num(2)).pow(num(1)));
    let expected = var('x').plus(num(2));
    if expr == expected {
        Ok(())
    } else {
        Err("Expr to the power of 1 did not equal the expression itself".into())
    }
}

#[test]
fn to_pow_0_is_1() -> Result<(), String> {
    // (x + 2)^0 => 1
    let expr = simplify(var('x').plus(num(2)).pow(num(0)));
    let expected = num(1);
    if expr == expected {
        Ok(())
    } else {
        Err("Expr to the power of 0 did not equal Const(1)".into())
    }
}

#[test]
fn _1_to_pow_anything_is_1() -> Result<(), String> {
    // 1^(x+e) => 1
    let expr = simplify(num(1).pow(var('x').plus(Expr::E)));
    let expected = num(1);
    if expr == expected {
        Ok(())
    } else {
        Err("1 to the power of expression did not equal 1".into())
    }
}

#[test]
fn _0_to_pow_anything_is_0() -> Result<(), String> {
    // 0^(x+e) => 0
    let expr = simplify(num(0).pow(var('x').plus(Expr::E)));
    let expected = num(0);
    if expr == expected {
        Ok(())
    } else {
        Err("0 to the power of some expression did not equal 0".into())
    }
}

#[test]
fn anything_divided_by_itself_is_1() -> Result<(), String> {
    // (x+e)*(109+110)/(x+e)*(109+110) => 1
    let common_expr = (var('x').plus(Expr::E)).times(num(109).plus(num(110)));
    let expr = simplify(common_expr.clone().div(common_expr));
    let expected = num(1);
    if expr == expected {
        Ok(())
    } else {
        Err("expression divided by itself did not equal 1".into())
    }
}

#[test]
fn func_arg_should_be_simplified() -> Result<(), String> {
    // fnc(109-109+10) => fnc(10)
    let expr = simplify(func("fnc", num(109).minus(num(109)).plus(num(10))));
    let expected = func("fnc", num(10));

    if expr == expected {
        Ok(())
    } else {
        Err("function arguments not simplified".into())
    }
}

#[test]
fn division_by_one_keeps_the_divisor() {
    // the single bottom-up pass returns the simplified divisor Const(1)
    // here, not the dividend
    let expr = simplify(var('x').div(num(1)));
    assert_eq!(expr, num(1));
}
