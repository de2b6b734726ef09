use symdiff::Bindings;
use symdiff::Expr;
use symdiff::Symbol;

fn var(name: &str) -> Expr {
    Expr::Variable(Symbol::new(name.to_string()))
}

fn sum(l: Expr, r: Expr) -> Expr {
    Expr::Sum(Box::new(l), Box::new(r))
}

fn product(l: Expr, r: Expr) -> Expr {
    Expr::Product(Box::new(l), Box::new(r))
}

#[test]
fn constant_evaluates_to_itself() {
    let env = Bindings::new();
    assert_eq!(Expr::Constant(5).evaluate(&env), Ok(5));
    let mut env2 = Bindings::new();
    env2.bind(Symbol::new("x".to_string()), 41);
    assert_eq!(Expr::Constant(5).evaluate(&env2), Ok(5));
}

#[test]
fn bound_variable_evaluates_to_its_value() {
    let mut env = Bindings::new();
    env.bind(Symbol::new("x".to_string()), 7);
    assert_eq!(var("x").evaluate(&env), Ok(7));
}

#[test]
fn sum_evaluates_componentwise() {
    let env = Bindings::new();
    let a = Expr::Constant(2);
    let b = Expr::Constant(3);
    let lhs = sum(a.clone(), b.clone()).evaluate(&env).unwrap();
    let rhs = a.evaluate(&env).unwrap() + b.evaluate(&env).unwrap();
    assert_eq!(lhs, rhs);
    assert_eq!(lhs, 5);
}

#[test]
fn product_evaluates_componentwise() {
    let mut env = Bindings::new();
    env.bind(Symbol::new("x".to_string()), 6);
    let a = sum(var("x"), Expr::Constant(-2));
    let b = Expr::Constant(5);
    let lhs = product(a.clone(), b.clone()).evaluate(&env).unwrap();
    let rhs = a.evaluate(&env).unwrap() * b.evaluate(&env).unwrap();
    assert_eq!(lhs, rhs);
    assert_eq!(lhs, 20);
}

#[test]
fn derivative_of_constant_is_zero() {
    let x = Symbol::new("x".to_string());
    let d = Expr::Constant(9).differentiate(&x);
    assert_eq!(d.render(), "0");
    let mut env = Bindings::new();
    env.bind(Symbol::new("x".to_string()), 123);
    assert_eq!(d.evaluate(&env), Ok(0));
    assert_eq!(d.evaluate(&Bindings::new()), Ok(0));
}

#[test]
fn derivative_of_variable_matches_target_or_not() {
    let x = Symbol::new("x".to_string());
    let y = Symbol::new("y".to_string());
    let env = Bindings::new();
    assert_eq!(var("x").differentiate(&x).evaluate(&env), Ok(1));
    assert_eq!(var("x").differentiate(&y).evaluate(&env), Ok(0));
}

#[test]
fn sum_rule_splits_over_operands() {
    let x = Symbol::new("x".to_string());
    let a = product(var("x"), var("x"));
    let b = sum(var("x"), Expr::Constant(4));
    let mut env = Bindings::new();
    env.bind(x.clone(), 3);
    let whole = sum(a.clone(), b.clone()).differentiate(&x).evaluate(&env).unwrap();
    let parts = a.differentiate(&x).evaluate(&env).unwrap()
        + b.differentiate(&x).evaluate(&env).unwrap();
    assert_eq!(whole, parts);
    assert_eq!(whole, 7);
}

#[test]
fn product_rule_combines_operands_and_derivatives() {
    let x = Symbol::new("x".to_string());
    let a = sum(var("x"), Expr::Constant(2));
    let b = product(var("x"), var("x"));
    let mut env = Bindings::new();
    env.bind(x.clone(), 3);
    let whole = product(a.clone(), b.clone()).differentiate(&x).evaluate(&env).unwrap();
    let expected = a.evaluate(&env).unwrap() * b.differentiate(&x).evaluate(&env).unwrap()
        + a.differentiate(&x).evaluate(&env).unwrap() * b.evaluate(&env).unwrap();
    assert_eq!(whole, expected);
    assert_eq!(whole, 39);
}

#[test]
fn differentiation_leaves_the_original_untouched() {
    let x = Symbol::new("x".to_string());
    let tree = product(sum(var("x"), Expr::Constant(1)), var("x"));
    let mut env = Bindings::new();
    env.bind(x.clone(), 4);
    let text_before = tree.render();
    let value_before = tree.evaluate(&env);
    let _derivative = tree.differentiate(&x);
    assert_eq!(tree.render(), text_before);
    assert_eq!(tree.evaluate(&env), value_before);
}

#[test]
fn unbound_variable_fails_and_names_itself() {
    let mut env = Bindings::new();
    env.bind(Symbol::new("x".to_string()), 2);
    match var("z").evaluate(&env) {
        Ok(_) => panic!("an unbound variable must not yield a value"),
        Err(u) => assert_eq!(u.name, "z"),
    }
}

#[test]
fn leftmost_unbound_variable_is_reported() {
    let env = Bindings::new();
    match sum(var("a"), var("b")).evaluate(&env) {
        Ok(_) => panic!("an unbound variable must not yield a value"),
        Err(u) => assert_eq!(u.name, "a"),
    }
}

#[test]
fn concrete_scenario_square_of_x_plus_one() {
    let x = Symbol::new("x".to_string());
    let s = sum(var("x"), Expr::Constant(1));
    let f = product(s.clone(), s);
    assert_eq!(f.render(), "((x + 1) * (x + 1))");

    // Under the fixed rule Sum(Product(L, dR), Product(dL, R)), with no
    // simplification, d(x + 1)/dx is rendered as "(1 + 0)".
    let ddx = f.differentiate(&x);
    assert_eq!(ddx.render(), "(((x + 1) * (1 + 0)) + ((1 + 0) * (x + 1)))");

    let mut env = Bindings::new();
    env.bind(x, 2);
    assert_eq!(f.evaluate(&env), Ok(9));
    assert_eq!(ddx.evaluate(&env), Ok(6));
}

#[test]
fn rendering_constants_uses_plain_decimal() {
    assert_eq!(Expr::Constant(0).render(), "0");
    assert_eq!(Expr::Constant(42).render(), "42");
    assert_eq!(Expr::Constant(-12).render(), "-12");
    assert_eq!(Expr::Constant(i64::MAX).render(), "9223372036854775807");
    assert_eq!(Expr::Constant(i64::MIN).render(), "-9223372036854775808");
}

#[test]
fn rendering_is_fully_parenthesized() {
    let e = sum(product(Expr::Constant(2), var("x")), sum(var("y"), Expr::Constant(-1)));
    assert_eq!(e.render(), "((2 * x) + (y + -1))");
}

#[test]
fn rebinding_a_name_replaces_its_value() {
    let mut env = Bindings::new();
    env.bind(Symbol::new("x".to_string()), 1);
    env.bind(Symbol::new("x".to_string()), 8);
    assert_eq!(var("x").evaluate(&env), Ok(8));
    assert_eq!(env.lookup(&Symbol::new("x".to_string())), Some(8));
    assert_eq!(env.lookup(&Symbol::new("y".to_string())), None);
}

#[test]
fn cloned_trees_behave_like_the_original() {
    let tree = product(sum(var("x"), Expr::Constant(3)), var("y"));
    let copy = tree.clone();
    assert_eq!(copy.render(), tree.render());
    let mut env = Bindings::new();
    env.bind(Symbol::new("x".to_string()), 2);
    env.bind(Symbol::new("y".to_string()), 5);
    assert_eq!(copy.evaluate(&env), tree.evaluate(&env));
    assert_eq!(tree.evaluate(&env), Ok(25));
}
