//! The numeric interface every formula in this crate is written against.
//!
//! A `Scalar` is a field-like value supporting the elementary operations the
//! perturbation-theory formulas need: field arithmetic, reciprocal, integer
//! and general powers, exponential, hyperbolic tangent, logarithm and square
//! root.  The interface carries a specification-level image of each operation
//! (`sp_plus`, `sp_times`, ...), so contracts can state exactly which
//! expression a formula computes without committing to one concrete number
//! representation.
//!
//! Implementations over exact arithmetic satisfy the algebraic laws below
//! exactly.  Floating-point implementations, which live outside the verified
//! library, satisfy them up to rounding and inherit every contract in that
//! approximate sense; a derivative-carrying implementation is provided by
//! [`crate::dual::Dual`], for which all laws are proved.
//!
//! The law set is deliberately limited to identities that double-precision
//! arithmetic satisfies exactly or to rounding error.  No analytic bounds
//! are axiomatized — no positivity of the exponential (it underflows to the
//! additive identity), no strict range of the hyperbolic tangent (it
//! saturates to the multiplicative identity), and no cube-root inversion of
//! a cube (a general power is not correctly rounded and its exponent one
//! third is itself rounded) — because each is violated by the floating-point
//! backends the interface is meant to describe.

use vstd::prelude::*;

verus! {

pub trait Scalar: Copy + Sized {
    /// Specification image of the additive identity.
    spec fn sp_zero() -> Self;

    /// Specification image of the multiplicative identity.
    spec fn sp_one() -> Self;

    /// Specification image of addition.
    spec fn sp_plus(self, other: Self) -> Self;

    /// Specification image of subtraction.
    spec fn sp_minus(self, other: Self) -> Self;

    /// Specification image of multiplication.
    spec fn sp_times(self, other: Self) -> Self;

    /// Specification image of division.
    spec fn sp_div(self, other: Self) -> Self;

    /// Specification image of negation.
    spec fn sp_neg(self) -> Self;

    /// Specification image of the reciprocal.
    spec fn sp_recip(self) -> Self;

    /// Specification image of the exponential function.
    spec fn sp_exp(self) -> Self;

    /// Specification image of the hyperbolic tangent.
    spec fn sp_tanh(self) -> Self;

    /// Specification image of the natural logarithm.
    spec fn sp_ln(self) -> Self;

    /// Specification image of the square root.
    spec fn sp_sqrt(self) -> Self;

    /// Specification image of a power with an arbitrary scalar exponent.
    spec fn sp_powd(self, exponent: Self) -> Self;

    /// Specification image of the value `numerator / denominator`.
    spec fn sp_from_ratio(numerator: i64, denominator: i64) -> Self;

    /// Specification image of the circle constant.
    spec fn sp_pi() -> Self;

    /// Specification image of the strict order on base values.
    spec fn sp_lt(self, other: Self) -> bool;

    /// Whether a value is regular: a nonzero number that arithmetic treats
    /// exactly (for floating-point implementations: finite and nonzero).
    /// The cancellation laws below are only claimed for regular values.
    spec fn sp_regular(self) -> bool;

    /// The additive identity.
    fn zero() -> (r: Self)
        ensures
            r == Self::sp_zero(),
    ;

    /// The multiplicative identity.
    fn one() -> (r: Self)
        ensures
            r == Self::sp_one(),
    ;

    /// Addition.
    fn plus(self, other: Self) -> (r: Self)
        ensures
            r == self.sp_plus(other),
    ;

    /// Subtraction.
    fn minus(self, other: Self) -> (r: Self)
        ensures
            r == self.sp_minus(other),
    ;

    /// Multiplication.
    fn times(self, other: Self) -> (r: Self)
        ensures
            r == self.sp_times(other),
    ;

    /// Division.
    fn div(self, other: Self) -> (r: Self)
        ensures
            r == self.sp_div(other),
    ;

    /// Negation.
    fn neg(self) -> (r: Self)
        ensures
            r == self.sp_neg(),
    ;

    /// Reciprocal.
    fn recip(self) -> (r: Self)
        ensures
            r == self.sp_recip(),
    ;

    /// Exponential function.
    fn exp(self) -> (r: Self)
        ensures
            r == self.sp_exp(),
    ;

    /// Hyperbolic tangent.
    fn tanh(self) -> (r: Self)
        ensures
            r == self.sp_tanh(),
    ;

    /// Natural logarithm.
    fn ln(self) -> (r: Self)
        ensures
            r == self.sp_ln(),
    ;

    /// Square root.
    fn sqrt(self) -> (r: Self)
        ensures
            r == self.sp_sqrt(),
    ;

    /// Power with an arbitrary scalar exponent.
    fn powd(self, exponent: Self) -> (r: Self)
        ensures
            r == self.sp_powd(exponent),
    ;

    /// The value `numerator / denominator`, the one way the formulas obtain
    /// their empirical coefficients.
    fn from_ratio(numerator: i64, denominator: i64) -> (r: Self)
        requires
            denominator > 0,
        ensures
            r == Self::sp_from_ratio(numerator, denominator),
    ;

    /// The circle constant.
    fn pi() -> (r: Self)
        ensures
            r == Self::sp_pi(),
    ;

    /// Strict order on base values.
    fn lt(self, other: Self) -> (r: bool)
        ensures
            r == self.sp_lt(other),
    ;

    /// Adding the additive identity changes nothing.
    proof fn law_plus_zero(a: Self)
        ensures
            a.sp_plus(Self::sp_zero()) == a,
            Self::sp_zero().sp_plus(a) == a,
    ;

    /// Multiplying by the multiplicative identity changes nothing.
    proof fn law_times_one(a: Self)
        ensures
            a.sp_times(Self::sp_one()) == a,
            Self::sp_one().sp_times(a) == a,
    ;

    /// Multiplying by the additive identity gives the additive identity.
    proof fn law_times_zero(a: Self)
        ensures
            a.sp_times(Self::sp_zero()) == Self::sp_zero(),
            Self::sp_zero().sp_times(a) == Self::sp_zero(),
    ;

    /// Addition is commutative.
    proof fn law_plus_comm(a: Self, b: Self)
        ensures
            a.sp_plus(b) == b.sp_plus(a),
    ;

    /// Multiplication is commutative.
    proof fn law_times_comm(a: Self, b: Self)
        ensures
            a.sp_times(b) == b.sp_times(a),
    ;

    /// Multiplication distributes over addition.
    proof fn law_distrib(a: Self, b: Self, c: Self)
        ensures
            a.sp_plus(b).sp_times(c) == a.sp_times(c).sp_plus(b.sp_times(c)),
            c.sp_times(a.sp_plus(b)) == c.sp_times(a).sp_plus(c.sp_times(b)),
    ;

    /// Subtracting a value from itself gives the additive identity.
    proof fn law_minus_self(a: Self)
        ensures
            a.sp_minus(a) == Self::sp_zero(),
    ;

    /// Dividing a regular value by itself gives the multiplicative identity.
    proof fn law_div_self(a: Self)
        requires
            a.sp_regular(),
        ensures
            a.sp_div(a) == Self::sp_one(),
    ;

    /// Dividing the additive identity by a regular value gives the additive
    /// identity.
    proof fn law_zero_div(a: Self)
        requires
            a.sp_regular(),
        ensures
            Self::sp_zero().sp_div(a) == Self::sp_zero(),
    ;

    /// Division by a regular value cancels a multiplication by it.
    proof fn law_times_div_cancel(a: Self, b: Self)
        requires
            a.sp_regular(),
        ensures
            a.sp_times(b).sp_div(a) == b,
            b.sp_times(a).sp_div(a) == b,
    ;

    /// Division distributes over addition from the right.
    proof fn law_div_plus(a: Self, b: Self, c: Self)
        ensures
            a.sp_plus(b).sp_div(c) == a.sp_div(c).sp_plus(b.sp_div(c)),
    ;

    /// The mean of a value with itself is that value.
    proof fn law_mean_self(a: Self)
        ensures
            a.sp_plus(a).sp_div(Self::sp_one().sp_plus(Self::sp_one())) == a,
    ;

    /// The square root of a squared positive value is that value.
    proof fn law_sqrt_square(a: Self)
        requires
            Self::sp_zero().sp_lt(a),
        ensures
            a.sp_times(a).sp_sqrt() == a,
    ;

    /// Addition is associative.
    proof fn law_plus_assoc(a: Self, b: Self, c: Self)
        ensures
            a.sp_plus(b).sp_plus(c) == a.sp_plus(b.sp_plus(c)),
    ;

    /// Multiplication is associative.
    proof fn law_times_assoc(a: Self, b: Self, c: Self)
        ensures
            a.sp_times(b).sp_times(c) == a.sp_times(b.sp_times(c)),
    ;

    /// Subtracting the additive identity changes nothing.
    proof fn law_minus_zero(a: Self)
        ensures
            a.sp_minus(Self::sp_zero()) == a,
    ;

    /// Subtraction cancels an addition.
    proof fn law_plus_minus_cancel(a: Self, b: Self)
        ensures
            a.sp_plus(b).sp_minus(b) == a,
    ;

    /// Subtraction of sums proceeds summand by summand.
    proof fn law_plus_minus_swap(a: Self, b: Self, c: Self, d: Self)
        ensures
            a.sp_plus(b).sp_minus(c.sp_plus(d)) == a.sp_minus(c).sp_plus(b.sp_minus(d)),
    ;

    /// A product of positive values is positive.
    proof fn law_pos_times(a: Self, b: Self)
        requires
            Self::sp_zero().sp_lt(a),
            Self::sp_zero().sp_lt(b),
        ensures
            Self::sp_zero().sp_lt(a.sp_times(b)),
    ;

    /// A sum of positive values is positive.
    proof fn law_pos_plus(a: Self, b: Self)
        requires
            Self::sp_zero().sp_lt(a),
            Self::sp_zero().sp_lt(b),
        ensures
            Self::sp_zero().sp_lt(a.sp_plus(b)),
    ;

    /// The multiplicative identity is positive.
    proof fn law_zero_lt_one()
        ensures
            Self::sp_zero().sp_lt(Self::sp_one()),
    ;

    /// The strict order is transitive.
    proof fn law_lt_trans(a: Self, b: Self, c: Self)
        requires
            a.sp_lt(b),
            b.sp_lt(c),
        ensures
            a.sp_lt(c),
    ;

    /// Positive values are regular.
    proof fn law_pos_regular(a: Self)
        requires
            Self::sp_zero().sp_lt(a),
        ensures
            a.sp_regular(),
    ;

    /// Scaling by one half is division by two.
    proof fn law_half(a: Self)
        ensures
            a.sp_times(Self::sp_from_ratio(1i64, 2i64)) == a.sp_div(
                Self::sp_one().sp_plus(Self::sp_one()),
            ),
    ;

    /// Any power of the multiplicative identity is the multiplicative
    /// identity.
    proof fn law_powd_one_base(e: Self)
        ensures
            Self::sp_one().sp_powd(e) == Self::sp_one(),
    ;

    /// The logarithm of the multiplicative identity is the additive identity.
    proof fn law_ln_one()
        ensures
            Self::sp_one().sp_ln() == Self::sp_zero(),
    ;

    /// The exponential of the additive identity is the multiplicative
    /// identity.
    proof fn law_exp_zero()
        ensures
            Self::sp_zero().sp_exp() == Self::sp_one(),
    ;
}

/// Integer power `a^n`, defined as `n` successive multiplications of the
/// multiplicative identity by `a`, exactly as [`powi`] computes it.
pub open spec fn sp_powi<S: Scalar>(a: S, n: nat) -> S
    decreases n,
{
    if n == 0 {
        S::sp_one()
    } else {
        a.sp_times(sp_powi(a, (n - 1) as nat))
    }
}

/// Integer power by successive multiplication.  The formulas use it for the
/// small fixed exponents the theory calls for, keeping integer powers exact
/// rather than routing them through a general power function.
pub fn powi<S: Scalar>(a: S, n: u32) -> (r: S)
    ensures
        r == sp_powi(a, n as nat),
{
    let mut acc = S::one();
    let mut i: u32 = 0;
    while i < n
        invariant
            i <= n,
            acc == sp_powi(a, i as nat),
        decreases n - i,
    {
        proof {
            lemma_powi_step(a, i as nat);
        }
        acc = a.times(acc);
        i = i + 1;
    }
    acc
}

proof fn lemma_powi_step<S: Scalar>(a: S, i: nat)
    ensures
        a.sp_times(sp_powi(a, i)) == sp_powi(a, i + 1),
{
    assert(sp_powi(a, i + 1) == a.sp_times(sp_powi(a, i)));
}

/// Sum of `f(0) + f(1) + ... + f(n - 1)`, accumulated left to right from the
/// additive identity, exactly as the executable accumulation loops do.
pub open spec fn sum_upto<S: Scalar>(n: nat, f: spec_fn(int) -> S) -> S
    decreases n,
{
    if n == 0 {
        S::sp_zero()
    } else {
        sum_upto((n - 1) as nat, f).sp_plus(f(n - 1))
    }
}

/// A pairwise term read off a single running cell index, row by row.
pub open spec fn grid_flat<S: Scalar>(n: int, f: spec_fn(int, int) -> S) -> spec_fn(int) -> S {
    |k: int| f(k / n, k % n)
}

/// Sum of `f(i, j)` over all ordered pairs `i, j < n`, accumulated row by
/// row, left to right, exactly as the executable double loops do.
pub open spec fn sum_grid<S: Scalar>(n: nat, f: spec_fn(int, int) -> S) -> S {
    sum_upto(n * n, grid_flat(n as int, f))
}

/// One accumulation step of a pairwise sum: adding the term of cell `(i, j)`
/// advances the running flat index by one.
pub proof fn lemma_sum_grid_step<S: Scalar>(n: int, i: int, j: int, f: spec_fn(int, int) -> S)
    requires
        0 < n,
        0 <= i < n,
        0 <= j < n,
    ensures
        sum_upto((i * n + j) as nat, grid_flat(n, f)).sp_plus(f(i, j)) == sum_upto(
            (i * n + j + 1) as nat,
            grid_flat(n, f),
        ),
{
    let m = i * n + j;
    assert(0 <= i * n + j && i * n + j + 1 <= n * n) by (nonlinear_arith)
        requires
            0 < n && 0 <= i < n && 0 <= j < n,
    ;
    vstd::arithmetic::div_mod::lemma_fundamental_div_mod_converse_div(m, n, i, j);
    vstd::arithmetic::div_mod::lemma_fundamental_div_mod_converse_mod(m, n, i, j);
    assert(grid_flat(n, f)(m) == f(i, j));
    assert(sum_upto((m + 1) as nat, grid_flat(n, f)) == sum_upto(m as nat, grid_flat(n, f)).sp_plus(
        grid_flat(n, f)(m),
    ));
}

/// After the last cell of a row, the flat index stands at the start of the
/// next row; after the last row it has covered the whole grid.
pub proof fn lemma_sum_grid_row_end(n: int, i: int)
    ensures
        i * n + n == (i + 1) * n,
        n * n == (n - 1) * n + n,
{
    assert(i * n + n == (i + 1) * n) by (nonlinear_arith);
    assert(n * n == (n - 1) * n + n) by (nonlinear_arith);
}

} // verus!
