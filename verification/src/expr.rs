use vstd::prelude::*;

use crate::bindings::Bindings;
use crate::symbol::Symbol;

verus! {

/// An expression node: an integer constant, a named variable, or the sum or
/// product of two owned sub-expressions. Trees are finite and acyclic by
/// construction, and every operation on them is a pure tree walk.
pub enum Expr {
    Constant(i64),
    Variable(Symbol),
    Sum(Box<Expr>, Box<Expr>),
    Product(Box<Expr>, Box<Expr>),
}

/// The sole failure of the engine: evaluation met a variable whose name has
/// no entry in the supplied binding environment.
#[derive(Debug, PartialEq, Eq)]
pub struct UnboundVariable {
    pub name: String,
}

/// Two trees have the same shape and the same leaves. This is the engine's
/// notion of expression identity: names are compared character by character.
pub open spec fn same_tree(a: Expr, b: Expr) -> bool
    decreases a,
{
    match (a, b) {
        (Expr::Constant(x), Expr::Constant(y)) => x == y,
        (Expr::Variable(s), Expr::Variable(t)) => s@ == t@,
        (Expr::Sum(al, ar), Expr::Sum(bl, br)) => same_tree(*al, *bl) && same_tree(*ar, *br),
        (Expr::Product(al, ar), Expr::Product(bl, br)) => same_tree(*al, *bl) && same_tree(
            *ar,
            *br,
        ),
        _ => false,
    }
}

/// Every variable occurring in `e` is bound in `env`.
pub open spec fn all_bound(e: Expr, env: Map<Seq<char>, i64>) -> bool
    decreases e,
{
    match e {
        Expr::Constant(_) => true,
        Expr::Variable(s) => env.contains_key(s@),
        Expr::Sum(l, r) => all_bound(*l, env) && all_bound(*r, env),
        Expr::Product(l, r) => all_bound(*l, env) && all_bound(*r, env),
    }
}

/// The mathematical value of `e` under `env`, over unbounded integers.
/// Meaningful when `all_bound(e, env)` holds.
pub open spec fn eval_spec(e: Expr, env: Map<Seq<char>, i64>) -> int
    decreases e,
{
    match e {
        Expr::Constant(c) => c as int,
        Expr::Variable(s) => env[s@] as int,
        Expr::Sum(l, r) => eval_spec(*l, env) + eval_spec(*r, env),
        Expr::Product(l, r) => eval_spec(*l, env) * eval_spec(*r, env),
    }
}

/// The name of the first unbound variable met by a left-to-right walk.
/// Meaningful when `all_bound(e, env)` fails.
pub open spec fn first_unbound(e: Expr, env: Map<Seq<char>, i64>) -> Seq<char>
    decreases e,
{
    match e {
        Expr::Constant(_) => Seq::empty(),
        Expr::Variable(s) => s@,
        Expr::Sum(l, r) => if !all_bound(*l, env) {
            first_unbound(*l, env)
        } else {
            first_unbound(*r, env)
        },
        Expr::Product(l, r) => if !all_bound(*l, env) {
            first_unbound(*l, env)
        } else {
            first_unbound(*r, env)
        },
    }
}

/// Every intermediate value that evaluation under `env` actually computes
/// fits in an `i64`. Left operands are evaluated first, so a composite's own
/// sum or product is only formed once both operands are fully bound.
pub open spec fn in_range(e: Expr, env: Map<Seq<char>, i64>) -> bool
    decreases e,
{
    match e {
        Expr::Constant(_) => true,
        Expr::Variable(_) => true,
        Expr::Sum(l, r) => in_range(*l, env) && in_range(*r, env) && (all_bound(*l, env)
            && all_bound(*r, env) ==> i64::MIN <= eval_spec(*l, env) + eval_spec(*r, env)
            <= i64::MAX),
        Expr::Product(l, r) => in_range(*l, env) && in_range(*r, env) && (all_bound(*l, env)
            && all_bound(*r, env) ==> i64::MIN <= eval_spec(*l, env) * eval_spec(*r, env)
            <= i64::MAX),
    }
}

/// `d` is the symbolic derivative of `e` with respect to the variable named
/// `v`, under the fixed rule set: a constant's derivative is the constant 0;
/// a variable's derivative is the constant 1 when its name is `v` and the
/// constant 0 otherwise; Sum(L, R) differentiates to Sum(dL, dR); and
/// Product(L, R) differentiates to Sum(Product(L, dR), Product(dL, R)),
/// where the reused operands are independent copies of L and R. No
/// simplification is performed, so this pins the derivative's shape exactly,
/// up to `same_tree`.
pub open spec fn is_derivative(e: Expr, v: Seq<char>, d: Expr) -> bool
    decreases e,
{
    match e {
        Expr::Constant(_) => d == Expr::Constant(0i64),
        Expr::Variable(s) => d == Expr::Constant(
            if s@ == v {
                1i64
            } else {
                0i64
            },
        ),
        Expr::Sum(l, r) => match d {
            Expr::Sum(dl, dr) => is_derivative(*l, v, *dl) && is_derivative(*r, v, *dr),
            _ => false,
        },
        Expr::Product(l, r) => match d {
            Expr::Sum(p, q) => match (*p, *q) {
                (Expr::Product(lc, dr), Expr::Product(dl, rc)) => same_tree(*lc, *l)
                    && is_derivative(*r, v, *dr) && is_derivative(*l, v, *dl) && same_tree(
                    *rc,
                    *r,
                ),
                _ => false,
            },
            _ => false,
        },
    }
}

impl Expr {
    /// The symbolic derivative of the expression with respect to the
    /// variable `v`: a new, independently owned tree built by the sum and
    /// product rules. Total, pure, and never touches the receiver, which
    /// stays valid and unchanged.
    pub fn differentiate(&self, v: &Symbol) -> (d: Expr)
        ensures
            is_derivative(*self, v@, d),
        decreases *self,
    {
        match self {
            Expr::Constant(_) => Expr::Constant(0),
            Expr::Variable(s) => {
                if s.name == v.name {
                    Expr::Constant(1)
                } else {
                    Expr::Constant(0)
                }
            },
            Expr::Sum(l, r) => Expr::Sum(
                Box::new((**l).differentiate(v)),
                Box::new((**r).differentiate(v)),
            ),
            Expr::Product(l, r) => {
                let dl = (**l).differentiate(v);
                let dr = (**r).differentiate(v);
                Expr::Sum(
                    Box::new(Expr::Product(Box::new((**l).clone()), Box::new(dr))),
                    Box::new(Expr::Product(Box::new(dl), Box::new((**r).clone()))),
                )
            },
        }
    }

    /// Reduce the expression to a number under `env`: a constant is its own
    /// value, a variable is looked up, a sum adds and a product multiplies
    /// the values of the operands, left operand first. Fails exactly when a
    /// variable is unbound, naming the first one met; no partial result is
    /// produced.
    pub fn evaluate(&self, env: &Bindings) -> (r: Result<i64, UnboundVariable>)
        requires
            in_range(*self, env@),
        ensures
            all_bound(*self, env@) ==> (r matches Ok(v) && v == eval_spec(*self, env@)),
            !all_bound(*self, env@) ==> (r matches Err(u) && u.name@ == first_unbound(
                *self,
                env@,
            )),
        decreases *self,
    {
        match self {
            Expr::Constant(c) => Ok(*c),
            Expr::Variable(s) => match env.lookup(s) {
                Some(v) => Ok(v),
                None => Err(UnboundVariable { name: s.name.clone() }),
            },
            Expr::Sum(l, r) => {
                let a = match (**l).evaluate(env) {
                    Ok(v) => v,
                    Err(u) => {
                        return Err(u);
                    },
                };
                let b = match (**r).evaluate(env) {
                    Ok(v) => v,
                    Err(u) => {
                        return Err(u);
                    },
                };
                Ok(a + b)
            },
            Expr::Product(l, r) => {
                let a = match (**l).evaluate(env) {
                    Ok(v) => v,
                    Err(u) => {
                        return Err(u);
                    },
                };
                let b = match (**r).evaluate(env) {
                    Ok(v) => v,
                    Err(u) => {
                        return Err(u);
                    },
                };
                Ok(a * b)
            },
        }
    }
}

impl Clone for Expr {
    /// An independently owned copy of the tree, leaf for leaf.
    fn clone(&self) -> (r: Self)
        ensures
            same_tree(r, *self),
        decreases self,
    {
        match self {
            Expr::Constant(c) => Expr::Constant(*c),
            Expr::Variable(s) => Expr::Variable(s.clone()),
            Expr::Sum(l, r) => Expr::Sum(
                Box::new((**l).clone()),
                Box::new((**r).clone()),
            ),
            Expr::Product(l, r) => Expr::Product(
                Box::new((**l).clone()),
                Box::new((**r).clone()),
            ),
        }
    }
}

} // verus!
