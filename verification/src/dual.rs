//! Forward-mode differentiable values over any scalar.
//!
//! A [`Dual`] pairs a base value with one derivative component and propagates
//! the derivative through every operation by the chain rule.  `Dual<S>`
//! implements [`Scalar`] whenever `S` does, so the same formula code runs at
//! any derivative order by nesting.  Every operation's contract shows that the
//! base component of a result is exactly the base operation applied to the
//! base components: a derivative-carrying evaluation never alters the value.

use vstd::prelude::*;

use crate::scalar::Scalar;

verus! {

/// A value together with one derivative component.
#[derive(Copy, Clone, Debug, PartialEq)]
pub struct Dual<S: Scalar> {
    /// The base value.
    pub re: S,
    /// The derivative component.
    pub eps: S,
}

impl<S: Scalar> Dual<S> {
    /// Lifts a value to a constant: derivative component zero.
    pub fn constant(re: S) -> (r: Dual<S>)
        ensures
            r == sp_constant(re),
    {
        Dual { re, eps: S::zero() }
    }

    /// Lifts a value to a variable of differentiation: derivative one.
    pub fn variable(re: S) -> (r: Dual<S>)
        ensures
            r.re == re,
            r.eps == S::sp_one(),
    {
        Dual { re, eps: S::one() }
    }
}

/// The constant lift of a value: derivative component zero.
pub open spec fn sp_constant<S: Scalar>(re: S) -> Dual<S> {
    Dual { re, eps: S::sp_zero() }
}

/// Four summands may be summed in two pair groupings.
proof fn lemma_plus_regroup<S: Scalar>(w: S, x: S, y: S, z: S)
    ensures
        w.sp_plus(x).sp_plus(y.sp_plus(z)) == w.sp_plus(y).sp_plus(x.sp_plus(z)),
{
    S::law_plus_assoc(w, x, y.sp_plus(z));
    S::law_plus_assoc(x, y, z);
    S::law_plus_comm(x, y);
    S::law_plus_assoc(y, x, z);
    S::law_plus_assoc(w, y, x.sp_plus(z));
}

impl<S: Scalar> Scalar for Dual<S> {
    open spec fn sp_zero() -> Dual<S> {
        Dual { re: S::sp_zero(), eps: S::sp_zero() }
    }

    open spec fn sp_one() -> Dual<S> {
        Dual { re: S::sp_one(), eps: S::sp_zero() }
    }

    open spec fn sp_plus(self, other: Dual<S>) -> Dual<S> {
        Dual { re: self.re.sp_plus(other.re), eps: self.eps.sp_plus(other.eps) }
    }

    open spec fn sp_minus(self, other: Dual<S>) -> Dual<S> {
        Dual { re: self.re.sp_minus(other.re), eps: self.eps.sp_minus(other.eps) }
    }

    open spec fn sp_times(self, other: Dual<S>) -> Dual<S> {
        Dual {
            re: self.re.sp_times(other.re),
            eps: self.re.sp_times(other.eps).sp_plus(self.eps.sp_times(other.re)),
        }
    }

    open spec fn sp_div(self, other: Dual<S>) -> Dual<S> {
        Dual {
            re: self.re.sp_div(other.re),
            eps: self.eps.sp_minus(self.re.sp_div(other.re).sp_times(other.eps)).sp_div(other.re),
        }
    }

    open spec fn sp_neg(self) -> Dual<S> {
        Dual { re: self.re.sp_neg(), eps: self.eps.sp_neg() }
    }

    open spec fn sp_recip(self) -> Dual<S> {
        Dual {
            re: self.re.sp_recip(),
            eps: self.eps.sp_div(self.re.sp_times(self.re)).sp_neg(),
        }
    }

    open spec fn sp_exp(self) -> Dual<S> {
        Dual { re: self.re.sp_exp(), eps: self.eps.sp_times(self.re.sp_exp()) }
    }

    open spec fn sp_tanh(self) -> Dual<S> {
        Dual {
            re: self.re.sp_tanh(),
            eps: self.eps.sp_times(
                S::sp_one().sp_minus(self.re.sp_tanh().sp_times(self.re.sp_tanh())),
            ),
        }
    }

    open spec fn sp_ln(self) -> Dual<S> {
        Dual { re: self.re.sp_ln(), eps: self.eps.sp_div(self.re) }
    }

    open spec fn sp_sqrt(self) -> Dual<S> {
        Dual {
            re: self.re.sp_sqrt(),
            eps: self.eps.sp_div(S::sp_one().sp_plus(S::sp_one())).sp_div(self.re.sp_sqrt()),
        }
    }

    open spec fn sp_powd(self, exponent: Dual<S>) -> Dual<S> {
        Dual {
            re: self.re.sp_powd(exponent.re),
            eps: self.re.sp_powd(exponent.re).sp_times(
                exponent.eps.sp_times(self.re.sp_ln()).sp_plus(
                    exponent.re.sp_times(self.eps.sp_div(self.re)),
                ),
            ),
        }
    }

    open spec fn sp_from_ratio(numerator: i64, denominator: i64) -> Dual<S> {
        Dual { re: S::sp_from_ratio(numerator, denominator), eps: S::sp_zero() }
    }

    open spec fn sp_pi() -> Dual<S> {
        Dual { re: S::sp_pi(), eps: S::sp_zero() }
    }

    open spec fn sp_lt(self, other: Dual<S>) -> bool {
        self.re.sp_lt(other.re)
    }

    open spec fn sp_regular(self) -> bool {
        self.re.sp_regular()
    }

    fn zero() -> (r: Dual<S>) {
        Dual { re: S::zero(), eps: S::zero() }
    }

    fn one() -> (r: Dual<S>) {
        Dual { re: S::one(), eps: S::zero() }
    }

    fn plus(self, other: Dual<S>) -> (r: Dual<S>) {
        Dual { re: self.re.plus(other.re), eps: self.eps.plus(other.eps) }
    }

    fn minus(self, other: Dual<S>) -> (r: Dual<S>) {
        Dual { re: self.re.minus(other.re), eps: self.eps.minus(other.eps) }
    }

    fn times(self, other: Dual<S>) -> (r: Dual<S>) {
        Dual {
            re: self.re.times(other.re),
            eps: self.re.times(other.eps).plus(self.eps.times(other.re)),
        }
    }

    fn div(self, other: Dual<S>) -> (r: Dual<S>) {
        let q = self.re.div(other.re);
        Dual { re: q, eps: self.eps.minus(q.times(other.eps)).div(other.re) }
    }

    fn neg(self) -> (r: Dual<S>) {
        Dual { re: self.re.neg(), eps: self.eps.neg() }
    }

    fn recip(self) -> (r: Dual<S>) {
        Dual { re: self.re.recip(), eps: self.eps.div(self.re.times(self.re)).neg() }
    }

    fn exp(self) -> (r: Dual<S>) {
        let e = self.re.exp();
        Dual { re: e, eps: self.eps.times(e) }
    }

    fn tanh(self) -> (r: Dual<S>) {
        let t = self.re.tanh();
        Dual { re: t, eps: self.eps.times(S::one().minus(t.times(t))) }
    }

    fn ln(self) -> (r: Dual<S>) {
        Dual { re: self.re.ln(), eps: self.eps.div(self.re) }
    }

    fn sqrt(self) -> (r: Dual<S>) {
        let s = self.re.sqrt();
        Dual { re: s, eps: self.eps.div(S::one().plus(S::one())).div(s) }
    }

    fn powd(self, exponent: Dual<S>) -> (r: Dual<S>) {
        let p = self.re.powd(exponent.re);
        Dual {
            re: p,
            eps: p.times(
                exponent.eps.times(self.re.ln()).plus(exponent.re.times(self.eps.div(self.re))),
            ),
        }
    }

    fn from_ratio(numerator: i64, denominator: i64) -> (r: Dual<S>) {
        Dual { re: S::from_ratio(numerator, denominator), eps: S::zero() }
    }

    fn pi() -> (r: Dual<S>) {
        Dual { re: S::pi(), eps: S::zero() }
    }

    fn lt(self, other: Dual<S>) -> (r: bool) {
        self.re.lt(other.re)
    }

    proof fn law_plus_zero(a: Dual<S>) {
        S::law_plus_zero(a.re);
        S::law_plus_zero(a.eps);
    }

    proof fn law_times_one(a: Dual<S>) {
        S::law_times_one(a.re);
        S::law_times_one(a.eps);
        S::law_times_zero(a.re);
        S::law_plus_zero(a.eps);
    }

    proof fn law_times_zero(a: Dual<S>) {
        S::law_times_zero(a.re);
        S::law_times_zero(a.eps);
        S::law_plus_zero(S::sp_zero());
    }

    proof fn law_plus_comm(a: Dual<S>, b: Dual<S>) {
        S::law_plus_comm(a.re, b.re);
        S::law_plus_comm(a.eps, b.eps);
    }

    proof fn law_times_comm(a: Dual<S>, b: Dual<S>) {
        S::law_times_comm(a.re, b.re);
        S::law_times_comm(a.re, b.eps);
        S::law_times_comm(a.eps, b.re);
        S::law_plus_comm(b.re.sp_times(a.eps), b.eps.sp_times(a.re));
    }

    proof fn law_distrib(a: Dual<S>, b: Dual<S>, c: Dual<S>) {
        S::law_distrib(a.re, b.re, c.re);
        S::law_distrib(a.re, b.re, c.eps);
        S::law_distrib(a.eps, b.eps, c.re);
        lemma_plus_regroup(
            a.re.sp_times(c.eps),
            b.re.sp_times(c.eps),
            a.eps.sp_times(c.re),
            b.eps.sp_times(c.re),
        );
        S::law_distrib(a.re, b.re, c.eps);
        S::law_distrib(c.re, a.re, b.re);
        S::law_distrib(c.eps, a.re, b.re);
        S::law_distrib(c.re, a.eps, b.eps);
        lemma_plus_regroup(
            c.re.sp_times(a.eps),
            c.re.sp_times(b.eps),
            c.eps.sp_times(a.re),
            c.eps.sp_times(b.re),
        );
        S::law_plus_comm(
            c.re.sp_times(a.eps).sp_plus(c.eps.sp_times(a.re)),
            c.re.sp_times(b.eps).sp_plus(c.eps.sp_times(b.re)),
        );
        S::law_plus_comm(c.re.sp_times(a.eps), c.eps.sp_times(a.re));
        S::law_plus_comm(c.re.sp_times(b.eps), c.eps.sp_times(b.re));
    }

    proof fn law_minus_self(a: Dual<S>) {
        S::law_minus_self(a.re);
        S::law_minus_self(a.eps);
    }

    proof fn law_div_self(a: Dual<S>) {
        S::law_div_self(a.re);
        S::law_times_one(a.eps);
        S::law_minus_self(a.eps);
        S::law_zero_div(a.re);
    }

    proof fn law_zero_div(a: Dual<S>) {
        S::law_zero_div(a.re);
        S::law_times_zero(a.eps);
        S::law_minus_self(S::sp_zero());
    }

    proof fn law_times_div_cancel(a: Dual<S>, b: Dual<S>) {
        S::law_times_div_cancel(a.re, b.re);
        // a * b / a
        S::law_times_comm(b.re, a.eps);
        S::law_plus_minus_cancel(a.re.sp_times(b.eps), a.eps.sp_times(b.re));
        S::law_times_div_cancel(a.re, b.eps);
        // b * a / a
        S::law_plus_comm(b.re.sp_times(a.eps), b.eps.sp_times(a.re));
        S::law_plus_minus_cancel(b.eps.sp_times(a.re), b.re.sp_times(a.eps));
        S::law_times_div_cancel(a.re, b.eps);
    }

    proof fn law_div_plus(a: Dual<S>, b: Dual<S>, c: Dual<S>) {
        S::law_div_plus(a.re, b.re, c.re);
        S::law_distrib(a.re.sp_div(c.re), b.re.sp_div(c.re), c.eps);
        S::law_plus_minus_swap(
            a.eps,
            b.eps,
            a.re.sp_div(c.re).sp_times(c.eps),
            b.re.sp_div(c.re).sp_times(c.eps),
        );
        S::law_div_plus(
            a.eps.sp_minus(a.re.sp_div(c.re).sp_times(c.eps)),
            b.eps.sp_minus(b.re.sp_div(c.re).sp_times(c.eps)),
            c.re,
        );
    }

    proof fn law_mean_self(a: Dual<S>) {
        S::law_mean_self(a.re);
        S::law_mean_self(a.eps);
        S::law_plus_zero(S::sp_zero());
        S::law_times_zero(a.re.sp_plus(a.re).sp_div(S::sp_one().sp_plus(S::sp_one())));
        S::law_minus_zero(a.eps.sp_plus(a.eps));
    }

    proof fn law_sqrt_square(a: Dual<S>) {
        S::law_sqrt_square(a.re);
        S::law_pos_regular(a.re);
        S::law_times_comm(a.eps, a.re);
        S::law_mean_self(a.re.sp_times(a.eps));
        S::law_times_comm(a.re, a.eps);
        S::law_times_div_cancel(a.re, a.eps);
    }

    proof fn law_plus_assoc(a: Dual<S>, b: Dual<S>, c: Dual<S>) {
        S::law_plus_assoc(a.re, b.re, c.re);
        S::law_plus_assoc(a.eps, b.eps, c.eps);
    }

    proof fn law_times_assoc(a: Dual<S>, b: Dual<S>, c: Dual<S>) {
        S::law_times_assoc(a.re, b.re, c.re);
        S::law_times_assoc(a.re, b.re, c.eps);
        S::law_times_assoc(a.re, b.eps, c.re);
        S::law_times_assoc(a.eps, b.re, c.re);
        S::law_distrib(a.re.sp_times(b.eps), a.eps.sp_times(b.re), c.re);
        S::law_distrib(b.re.sp_times(c.eps), b.eps.sp_times(c.re), a.re);
        S::law_times_comm(a.re, b.re.sp_times(c.eps).sp_plus(b.eps.sp_times(c.re)));
        S::law_times_comm(a.re, b.re.sp_times(c.eps));
        S::law_times_comm(a.re, b.eps.sp_times(c.re));
        S::law_times_comm(a.re, b.eps);
        S::law_times_assoc(a.re, b.eps, c.re)
        ;
        assert(a.re.sp_times(b.re.sp_times(c.eps)) == a.re.sp_times(b.re).sp_times(c.eps));
        assert(a.re.sp_times(b.eps.sp_times(c.re)) == a.re.sp_times(b.eps).sp_times(c.re));
        S::law_plus_assoc(
            a.re.sp_times(b.re).sp_times(c.eps),
            a.re.sp_times(b.eps).sp_times(c.re),
            a.eps.sp_times(b.re).sp_times(c.re),
        );
        S::law_times_assoc(a.eps, b.re, c.re);
    }

    proof fn law_minus_zero(a: Dual<S>) {
        S::law_minus_zero(a.re);
        S::law_minus_zero(a.eps);
    }

    proof fn law_plus_minus_cancel(a: Dual<S>, b: Dual<S>) {
        S::law_plus_minus_cancel(a.re, b.re);
        S::law_plus_minus_cancel(a.eps, b.eps);
    }

    proof fn law_plus_minus_swap(a: Dual<S>, b: Dual<S>, c: Dual<S>, d: Dual<S>) {
        S::law_plus_minus_swap(a.re, b.re, c.re, d.re);
        S::law_plus_minus_swap(a.eps, b.eps, c.eps, d.eps);
    }

    proof fn law_pos_times(a: Dual<S>, b: Dual<S>) {
        S::law_pos_times(a.re, b.re);
    }

    proof fn law_pos_plus(a: Dual<S>, b: Dual<S>) {
        S::law_pos_plus(a.re, b.re);
    }

    proof fn law_zero_lt_one() {
        S::law_zero_lt_one();
    }

    proof fn law_lt_trans(a: Dual<S>, b: Dual<S>, c: Dual<S>) {
        S::law_lt_trans(a.re, b.re, c.re);
    }

    proof fn law_pos_regular(a: Dual<S>) {
        S::law_pos_regular(a.re);
    }

    proof fn law_half(a: Dual<S>) {
        S::law_half(a.re);
        S::law_half(a.eps);
        S::law_times_zero(a.re);
        S::law_plus_zero(a.eps.sp_times(S::sp_from_ratio(1i64, 2i64)));
        S::law_plus_zero(S::sp_zero());
        S::law_times_zero(a.re.sp_div(S::sp_one().sp_plus(S::sp_one())));
        S::law_minus_zero(a.eps);
    }

    proof fn law_powd_one_base(e: Dual<S>) {
        S::law_powd_one_base(e.re);
        S::law_ln_one();
        S::law_times_zero(e.eps);
        S::law_zero_lt_one();
        S::law_pos_regular(S::sp_one());
        S::law_zero_div(S::sp_one());
        S::law_times_zero(e.re);
        S::law_plus_zero(S::sp_zero());
        S::law_times_zero(S::sp_one());
    }

    proof fn law_ln_one() {
        S::law_ln_one();
        S::law_zero_lt_one();
        S::law_pos_regular(S::sp_one());
        S::law_zero_div(S::sp_one());
    }

    proof fn law_exp_zero() {
        S::law_exp_zero();
        S::law_times_zero(S::sp_one());
    }
}

} // verus!
