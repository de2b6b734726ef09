use vstd::prelude::*;
use vstd::string::StringExecFns;

use crate::expr::Expr;

verus! {

/// The decimal digit character for `d`, for `0 <= d <= 9`.
pub open spec fn digit_char(d: int) -> char {
    if d == 0 {
        '0'
    } else if d == 1 {
        '1'
    } else if d == 2 {
        '2'
    } else if d == 3 {
        '3'
    } else if d == 4 {
        '4'
    } else if d == 5 {
        '5'
    } else if d == 6 {
        '6'
    } else if d == 7 {
        '7'
    } else if d == 8 {
        '8'
    } else {
        '9'
    }
}

/// The decimal digits of `n`, most significant first, with no sign and no
/// leading zeros (a single `'0'` for zero itself).
pub open spec fn decimal_nat(n: nat) -> Seq<char>
    decreases n,
{
    if n < 10 {
        seq![digit_char(n as int)]
    } else {
        decimal_nat(n / 10) + seq![digit_char((n % 10) as int)]
    }
}

/// The default decimal form of an integer: a leading `'-'` for a negative
/// value, then its magnitude's digits.
pub open spec fn decimal_int(n: int) -> Seq<char> {
    if n < 0 {
        seq!['-'] + decimal_nat((-n) as nat)
    } else {
        decimal_nat(n as nat)
    }
}

/// The fully parenthesized textual form of an expression: a constant is its
/// decimal value, a variable is its name, and each composite wraps its two
/// operands in one pair of parentheses around the infix operator.
pub open spec fn render_spec(e: Expr) -> Seq<char>
    decreases e,
{
    match e {
        Expr::Constant(c) => decimal_int(c as int),
        Expr::Variable(s) => s@,
        Expr::Sum(l, r) => seq!['('] + render_spec(*l) + seq![' ', '+', ' '] + render_spec(*r)
            + seq![')'],
        Expr::Product(l, r) => seq!['('] + render_spec(*l) + seq![' ', '*', ' '] + render_spec(
            *r,
        ) + seq![')'],
    }
}

/// The one-character string for the digit `d`.
fn digit_str(d: u64) -> (r: &'static str)
    requires
        d < 10,
    ensures
        r@ == seq![digit_char(d as int)],
{
    let r: &'static str = if d == 0 {
        "0"
    } else if d == 1 {
        "1"
    } else if d == 2 {
        "2"
    } else if d == 3 {
        "3"
    } else if d == 4 {
        "4"
    } else if d == 5 {
        "5"
    } else if d == 6 {
        "6"
    } else if d == 7 {
        "7"
    } else if d == 8 {
        "8"
    } else {
        "9"
    };
    proof {
        reveal_strlit("0");
        reveal_strlit("1");
        reveal_strlit("2");
        reveal_strlit("3");
        reveal_strlit("4");
        reveal_strlit("5");
        reveal_strlit("6");
        reveal_strlit("7");
        reveal_strlit("8");
        reveal_strlit("9");
        assert(r@ =~= seq![digit_char(d as int)]);
    }
    r
}

/// Append the decimal digits of `n` to `out`.
fn push_unsigned(n: u64, out: &mut String)
    ensures
        final(out)@ == old(out)@ + decimal_nat(n as nat),
    decreases n,
{
    if n >= 10 {
        push_unsigned(n / 10, out);
    }
    out.append(digit_str(n % 10));
    proof {
        assert(out@ =~= old(out)@ + decimal_nat(n as nat));
    }
}

/// Append the decimal form of `n` to `out`, sign included.
fn push_decimal(n: i64, out: &mut String)
    ensures
        final(out)@ == old(out)@ + decimal_int(n as int),
{
    if n < 0 {
        out.append("-");
        let wide: i128 = n as i128;
        let mag: u64 = (-wide) as u64;
        proof {
            assert(0 <= -wide <= u64::MAX);
            assert(mag == -(n as int));
        }
        push_unsigned(mag, out);
        proof {
            reveal_strlit("-");
            assert(("-")@ =~= seq!['-']);
            assert(out@ =~= old(out)@ + decimal_int(n as int));
        }
    } else {
        push_unsigned(n as u64, out);
    }
}

impl Expr {
    /// Append the rendered form of the expression to `out`.
    fn render_into(&self, out: &mut String)
        ensures
            final(out)@ == old(out)@ + render_spec(*self),
        decreases *self,
    {
        match self {
            Expr::Constant(c) => {
                push_decimal(*c, out);
            },
            Expr::Variable(s) => {
                out.append(s.name.as_str());
            },
            Expr::Sum(l, r) => {
                out.append("(");
                (**l).render_into(out);
                out.append(" + ");
                (**r).render_into(out);
                out.append(")");
                proof {
                    reveal_strlit("(");
                    reveal_strlit(" + ");
                    reveal_strlit(")");
                    assert(("(")@ =~= seq!['(']);
                    assert((" + ")@ =~= seq![' ', '+', ' ']);
                    assert((")")@ =~= seq![')']);
                    assert(out@ =~= old(out)@ + render_spec(*self));
                }
            },
            Expr::Product(l, r) => {
                out.append("(");
                (**l).render_into(out);
                out.append(" * ");
                (**r).render_into(out);
                out.append(")");
                proof {
                    reveal_strlit("(");
                    reveal_strlit(" * ");
                    reveal_strlit(")");
                    assert(("(")@ =~= seq!['(']);
                    assert((" * ")@ =~= seq![' ', '*', ' ']);
                    assert((")")@ =~= seq![')']);
                    assert(out@ =~= old(out)@ + render_spec(*self));
                }
            },
        }
    }

    /// The deterministic, fully parenthesized textual form of the
    /// expression, used only for display.
    pub fn render(&self) -> (r: String)
        ensures
            r@ == render_spec(*self),
    {
        let mut out = String::new();
        self.render_into(&mut out);
        proof {
            assert(out@ =~= render_spec(*self));
        }
        out
    }
}

} // verus!
