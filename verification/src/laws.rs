use vstd::prelude::*;

use crate::expr::Expr;
use crate::expr::all_bound;
use crate::expr::eval_spec;
use crate::expr::first_unbound;
use crate::expr::in_range;
use crate::expr::is_derivative;
use crate::expr::same_tree;
use crate::render::render_spec;
use crate::symbol::Symbol;

verus! {

/// `same_tree` is reflexive: every tree is a copy of itself.
pub proof fn lemma_same_tree_refl(a: Expr)
    ensures
        same_tree(a, a),
    decreases a,
{
    match a {
        Expr::Sum(l, r) => {
            lemma_same_tree_refl(*l);
            lemma_same_tree_refl(*r);
        },
        Expr::Product(l, r) => {
            lemma_same_tree_refl(*l);
            lemma_same_tree_refl(*r);
        },
        _ => {},
    }
}

/// `same_tree` is symmetric.
pub proof fn lemma_same_tree_sym(a: Expr, b: Expr)
    requires
        same_tree(a, b),
    ensures
        same_tree(b, a),
    decreases a,
{
    match (a, b) {
        (Expr::Sum(al, ar), Expr::Sum(bl, br)) => {
            lemma_same_tree_sym(*al, *bl);
            lemma_same_tree_sym(*ar, *br);
        },
        (Expr::Product(al, ar), Expr::Product(bl, br)) => {
            lemma_same_tree_sym(*al, *bl);
            lemma_same_tree_sym(*ar, *br);
        },
        _ => {},
    }
}

/// `same_tree` is transitive.
pub proof fn lemma_same_tree_trans(a: Expr, b: Expr, c: Expr)
    requires
        same_tree(a, b),
        same_tree(b, c),
    ensures
        same_tree(a, c),
    decreases a,
{
    match (a, b) {
        (Expr::Sum(al, ar), Expr::Sum(bl, br)) => {
            match c {
                Expr::Sum(cl, cr) => {
                    lemma_same_tree_trans(*al, *bl, *cl);
                    lemma_same_tree_trans(*ar, *br, *cr);
                },
                _ => {},
            }
        },
        (Expr::Product(al, ar), Expr::Product(bl, br)) => {
            match c {
                Expr::Product(cl, cr) => {
                    lemma_same_tree_trans(*al, *bl, *cl);
                    lemma_same_tree_trans(*ar, *br, *cr);
                },
                _ => {},
            }
        },
        _ => {},
    }
}

/// Non-mutation, seen from the other side: an independent copy of a tree —
/// such as `clone` returns, and such as `differentiate` builds into the
/// derivative of a product — is observationally identical to the original:
/// it is bound under the same environments, evaluates to the same value,
/// fails on the same first variable, stays in machine range together with
/// the original, and renders to the same text.
pub proof fn law_copy_preserves_meaning(a: Expr, b: Expr, env: Map<Seq<char>, i64>)
    requires
        same_tree(a, b),
    ensures
        all_bound(a, env) == all_bound(b, env),
        eval_spec(a, env) == eval_spec(b, env),
        first_unbound(a, env) == first_unbound(b, env),
        in_range(a, env) == in_range(b, env),
        render_spec(a) == render_spec(b),
    decreases a,
{
    match (a, b) {
        (Expr::Sum(al, ar), Expr::Sum(bl, br)) => {
            law_copy_preserves_meaning(*al, *bl, env);
            law_copy_preserves_meaning(*ar, *br, env);
        },
        (Expr::Product(al, ar), Expr::Product(bl, br)) => {
            law_copy_preserves_meaning(*al, *bl, env);
            law_copy_preserves_meaning(*ar, *br, env);
        },
        _ => {},
    }
}

/// The derivative of a tree with respect to a variable is unique up to
/// `same_tree`: the fixed rule set determines its shape and leaves exactly.
pub proof fn lemma_derivative_unique(e: Expr, v: Seq<char>, d1: Expr, d2: Expr)
    requires
        is_derivative(e, v, d1),
        is_derivative(e, v, d2),
    ensures
        same_tree(d1, d2),
    decreases e,
{
    match e {
        Expr::Constant(_) => {
            lemma_same_tree_refl(d1);
        },
        Expr::Variable(_) => {
            lemma_same_tree_refl(d1);
        },
        Expr::Sum(l, r) => {
            match (d1, d2) {
                (Expr::Sum(a1, b1), Expr::Sum(a2, b2)) => {
                    lemma_derivative_unique(*l, v, *a1, *a2);
                    lemma_derivative_unique(*r, v, *b1, *b2);
                },
                _ => {},
            }
        },
        Expr::Product(l, r) => {
            match (d1, d2) {
                (Expr::Sum(p1, q1), Expr::Sum(p2, q2)) => {
                    match ((*p1, *q1), (*p2, *q2)) {
                        (
                            (Expr::Product(lc1, dr1), Expr::Product(dl1, rc1)),
                            (Expr::Product(lc2, dr2), Expr::Product(dl2, rc2)),
                        ) => {
                            lemma_same_tree_sym(*lc2, *l);
                            lemma_same_tree_trans(*lc1, *l, *lc2);
                            lemma_same_tree_sym(*rc2, *r);
                            lemma_same_tree_trans(*rc1, *r, *rc2);
                            lemma_derivative_unique(*r, v, *dr1, *dr2);
                            lemma_derivative_unique(*l, v, *dl1, *dl2);
                            assert(same_tree(*p1, *p2));
                            assert(same_tree(*q1, *q2));
                        },
                        _ => {},
                    }
                },
                _ => {},
            }
        },
    }
}

/// Evaluation correctness for constants: a constant evaluates to its own
/// value under every environment, and is bound under every environment.
pub proof fn law_constant_evaluation(c: i64, env: Map<Seq<char>, i64>)
    ensures
        all_bound(Expr::Constant(c), env),
        eval_spec(Expr::Constant(c), env) == c,
{
}

/// Evaluation correctness for variables: a variable bound to a value
/// evaluates to that value.
pub proof fn law_variable_evaluation(s: Symbol, env: Map<Seq<char>, i64>)
    requires
        env.contains_key(s@),
    ensures
        all_bound(Expr::Variable(s), env),
        eval_spec(Expr::Variable(s), env) == env[s@],
{
}

/// Sum evaluation: a sum's value is the sum of its operands' values, and it
/// is bound exactly when both operands are.
pub proof fn law_sum_evaluation(e: Expr, env: Map<Seq<char>, i64>)
    requires
        e is Sum,
    ensures
        e matches Expr::Sum(l, r) ==> eval_spec(e, env) == eval_spec(*l, env) + eval_spec(
            *r,
            env,
        ) && all_bound(e, env) == (all_bound(*l, env) && all_bound(*r, env)),
{
}

/// Product evaluation: a product's value is the product of its operands'
/// values, and it is bound exactly when both operands are.
pub proof fn law_product_evaluation(e: Expr, env: Map<Seq<char>, i64>)
    requires
        e is Product,
    ensures
        e matches Expr::Product(l, r) ==> eval_spec(e, env) == eval_spec(*l, env) * eval_spec(
            *r,
            env,
        ) && all_bound(e, env) == (all_bound(*l, env) && all_bound(*r, env)),
{
}

/// The derivative of a constant is zero: it evaluates to 0 under every
/// environment, and is bound under every environment.
pub proof fn law_constant_rule(c: i64, v: Seq<char>, d: Expr, env: Map<Seq<char>, i64>)
    requires
        is_derivative(Expr::Constant(c), v, d),
    ensures
        all_bound(d, env),
        eval_spec(d, env) == 0,
{
}

/// The derivative of a variable is 1 when it is the variable of
/// differentiation and 0 otherwise, under every environment.
pub proof fn law_variable_rule(s: Symbol, v: Seq<char>, d: Expr, env: Map<Seq<char>, i64>)
    requires
        is_derivative(Expr::Variable(s), v, d),
    ensures
        all_bound(d, env),
        eval_spec(d, env) == if s@ == v {
            1int
        } else {
            0int
        },
{
}

/// The sum rule: the derivative of a sum evaluates, under every
/// environment, to the sum of the values of the operands' derivatives.
pub proof fn law_sum_rule(
    e: Expr,
    v: Seq<char>,
    d: Expr,
    da: Expr,
    db: Expr,
    env: Map<Seq<char>, i64>,
)
    requires
        e is Sum,
        is_derivative(e, v, d),
        e matches Expr::Sum(l, r) ==> is_derivative(*l, v, da) && is_derivative(*r, v, db),
    ensures
        eval_spec(d, env) == eval_spec(da, env) + eval_spec(db, env),
{
    match e {
        Expr::Sum(l, r) => {
            match d {
                Expr::Sum(dl, dr) => {
                    lemma_derivative_unique(*l, v, *dl, da);
                    lemma_derivative_unique(*r, v, *dr, db);
                    law_copy_preserves_meaning(*dl, da, env);
                    law_copy_preserves_meaning(*dr, db, env);
                },
                _ => {},
            }
        },
        _ => {},
    }
}

/// The product rule: the derivative of Product(L, R) evaluates, under every
/// environment, to L's value times the value of R's derivative, plus the
/// value of L's derivative times R's value.
pub proof fn law_product_rule(
    e: Expr,
    v: Seq<char>,
    d: Expr,
    da: Expr,
    db: Expr,
    env: Map<Seq<char>, i64>,
)
    requires
        e is Product,
        is_derivative(e, v, d),
        e matches Expr::Product(l, r) ==> is_derivative(*l, v, da) && is_derivative(*r, v, db),
    ensures
        e matches Expr::Product(l, r) ==> eval_spec(d, env) == eval_spec(*l, env) * eval_spec(
            db,
            env,
        ) + eval_spec(da, env) * eval_spec(*r, env),
{
    match e {
        Expr::Product(l, r) => {
            match d {
                Expr::Sum(p, q) => {
                    match (*p, *q) {
                        (Expr::Product(lc, dr), Expr::Product(dl, rc)) => {
                            law_copy_preserves_meaning(*lc, *l, env);
                            law_copy_preserves_meaning(*rc, *r, env);
                            lemma_derivative_unique(*r, v, *dr, db);
                            lemma_derivative_unique(*l, v, *dl, da);
                            law_copy_preserves_meaning(*dr, db, env);
                            law_copy_preserves_meaning(*dl, da, env);
                            assert(eval_spec(d, env) == eval_spec(*p, env) + eval_spec(*q, env));
                            assert(eval_spec(*p, env) == eval_spec(*lc, env) * eval_spec(
                                *dr,
                                env,
                            ));
                            assert(eval_spec(*q, env) == eval_spec(*dl, env) * eval_spec(
                                *rc,
                                env,
                            ));
                        },
                        _ => {},
                    }
                },
                _ => {},
            }
        },
        _ => {},
    }
}

} // verus!
