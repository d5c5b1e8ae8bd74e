//! Elementary quantities of the generalized Mie pair potential.

use vstd::prelude::*;

use crate::scalar::{powi, sp_powi, Scalar};

verus! {

/// Mirror of [`mie_prefactor`].
pub open spec fn sp_mie_prefactor<S: Scalar>(rep: S, att: S) -> S {
    rep.sp_div(rep.sp_minus(att)).sp_times(
        rep.sp_div(att).sp_powd(att.sp_div(rep.sp_minus(att))),
    )
}

/// The prefactor that normalizes the Mie potential to depth one:
/// `rep / (rep - att) * (rep / att)^(att / (rep - att))`.
pub fn mie_prefactor<S: Scalar>(rep: S, att: S) -> (r: S)
    ensures
        r == sp_mie_prefactor(rep, att),
{
    rep.div(rep.minus(att)).times(rep.div(att).powd(att.div(rep.minus(att))))
}

/// Mirror of [`mean_field_constant`].
pub open spec fn sp_mean_field_constant<S: Scalar>(rep: S, att: S, x: S) -> S {
    sp_mie_prefactor(rep, att).sp_times(
        x.sp_powd(sp_three::<S>().sp_minus(att)).sp_div(att.sp_minus(sp_three::<S>())).sp_minus(
            x.sp_powd(sp_three::<S>().sp_minus(rep)).sp_div(rep.sp_minus(sp_three::<S>())),
        ),
    )
}

/// The closed-form integral of the Mie-potential tail from the reduced
/// length `x` outward: the mean-field constant of the attractive terms,
/// reused at several cutoffs.
pub fn mean_field_constant<S: Scalar>(rep: S, att: S, x: S) -> (r: S)
    ensures
        r == sp_mean_field_constant(rep, att, x),
{
    let three = S::from_ratio(3, 1);
    mie_prefactor(rep, att).times(
        x.powd(three.minus(att)).div(att.minus(three)).minus(
            x.powd(three.minus(rep)).div(rep.minus(three)),
        ),
    )
}

/// The scalar three, as the formulas spell it.
pub open spec fn sp_three<S: Scalar>() -> S {
    S::sp_from_ratio(3, 1)
}

/// Mirror of [`boltzmann_factor`].
pub open spec fn sp_boltzmann_factor<S: Scalar>(
    m: S,
    reduced_temperature: S,
    reduced_separation: S,
) -> S {
    reduced_temperature.sp_recip().sp_neg().sp_times(
        sp_mie_prefactor(m, S::sp_from_ratio(6, 1)),
    ).sp_times(
        reduced_separation.sp_powd(m.sp_neg()).sp_minus(
            reduced_separation.sp_powd(S::sp_from_ratio(6, 1).sp_neg()),
        ),
    ).sp_exp()
}

/// Boltzmann factor of a Mie potential with repulsive exponent `m` and
/// attractive exponent six, at the given reduced temperature and separation.
pub fn boltzmann_factor<S: Scalar>(m: S, reduced_temperature: S, reduced_separation: S) -> (r: S)
    ensures
        r == sp_boltzmann_factor(m, reduced_temperature, reduced_separation),
{
    let six = S::from_ratio(6, 1);
    reduced_temperature.recip().neg().times(mie_prefactor(m, six)).times(
        reduced_separation.powd(m.neg()).minus(reduced_separation.powd(six.neg())),
    ).exp()
}

/// Mirror of [`potential_minimum_position`].
pub open spec fn sp_potential_minimum_position<S: Scalar>(rep: S, att: S) -> S {
    rep.sp_div(att).sp_powd(rep.sp_minus(att).sp_recip())
}

/// Reduced position of the Mie potential's minimum:
/// `(rep / att)^(1 / (rep - att))`.  Undefined when the exponents coincide,
/// which parameter validation rules out.
pub fn potential_minimum_position<S: Scalar>(rep: S, att: S) -> (r: S)
    ensures
        r == sp_potential_minimum_position(rep, att),
{
    rep.div(att).powd(rep.minus(att).recip())
}

/// Mirror of [`cube_difference_third`].
pub open spec fn sp_cube_difference_third<S: Scalar>(a: S, b: S) -> S {
    sp_powi(a, 3).sp_minus(sp_powi(b, 3)).sp_div(sp_three::<S>())
}

/// One third of the difference of cubes, the geometric factor the
/// perturbation terms weigh their closure expressions with.
pub fn cube_difference_third<S: Scalar>(a: S, b: S) -> (r: S)
    ensures
        r == sp_cube_difference_third(a, b),
{
    powi(a, 3).minus(powi(b, 3)).div(S::from_ratio(3, 1))
}

} // verus!
