//! Hard-sphere reference contribution and packing-fraction helpers.
//!
//! The effective hard-sphere diameters are temperature-dependent empirical
//! correlations of the chosen division; the evaluator takes their
//! per-component values as supplied inputs and applies the standard
//! Boublik-Mansoori mixture expression over the diameter moments.

use vstd::prelude::*;

use crate::parameters::UVParameters;
use crate::scalar::{powi, sp_powi, sum_upto, Scalar};
use crate::state::State;

verus! {

/// Hard-sphere reference contribution.
#[derive(Clone, Debug)]
pub struct HardSphere<S: Scalar> {
    /// The shared, read-only parameter set.
    pub parameters: UVParameters<S>,
}

/// Mirror of [`zeta`]: the k-th diameter moment
/// `pi/6 * sum of rho_i * d_i^k`.
pub open spec fn sp_zeta<S: Scalar>(partial_density: Seq<S>, d: Seq<S>, k: nat) -> S {
    sum_upto(
        partial_density.len(),
        |i: int| partial_density[i].sp_times(sp_powi(d[i], k)),
    ).sp_times(S::sp_pi().sp_div(S::sp_from_ratio(6i64, 1i64)))
}

/// The k-th moment of the diameter distribution, scaled by pi over six.
pub fn zeta<S: Scalar>(partial_density: &Vec<S>, d: &Vec<S>, k: u32) -> (r: S)
    requires
        d@.len() == partial_density@.len(),
    ensures
        r == sp_zeta(partial_density@, d@, k as nat),
{
    let mut acc = S::zero();
    let mut i: usize = 0;
    while i < partial_density.len()
        invariant
            i <= partial_density@.len(),
            d@.len() == partial_density@.len(),
            acc == sum_upto(
                i as nat,
                |m: int| partial_density@[m].sp_times(sp_powi(d@[m], k as nat)),
            ),
        decreases partial_density@.len() - i,
    {
        acc = acc.plus(partial_density[i].times(powi(d[i], k)));
        i = i + 1;
    }
    acc.times(S::pi().div(S::from_ratio(6, 1)))
}

/// Mirror of [`packing_fraction`]: the third diameter moment.
pub open spec fn sp_packing_fraction<S: Scalar>(partial_density: Seq<S>, d: Seq<S>) -> S {
    sp_zeta(partial_density, d, 3)
}

/// Packing fraction of the mixture: the volume fraction occupied by the
/// hard-sphere cores of the supplied effective diameters.
pub fn packing_fraction<S: Scalar>(partial_density: &Vec<S>, d: &Vec<S>) -> (r: S)
    requires
        d@.len() == partial_density@.len(),
    ensures
        r == sp_packing_fraction(partial_density@, d@),
{
    zeta(partial_density, d, 3)
}

/// Mirror of [`closure_term`].
pub open spec fn sp_closure_term<S: Scalar>(eta: S) -> S {
    eta.sp_neg().sp_times(S::sp_from_ratio(1i64, 2i64)).sp_plus(S::sp_one()).sp_div(
        sp_powi(eta.sp_neg().sp_plus(S::sp_one()), 3),
    )
}

/// The Percus-Yevick-style closure expression `(1 - eta/2) / (1 - eta)^3`
/// the reference-perturbation terms evaluate at transformed packing
/// fractions.
pub fn closure_term<S: Scalar>(eta: S) -> (r: S)
    ensures
        r == sp_closure_term(eta),
{
    eta.neg().times(S::from_ratio(1, 2)).plus(S::one()).div(
        powi(eta.neg().plus(S::one()), 3),
    )
}

/// Mirror of [`HardSphere::helmholtz_energy`].
pub open spec fn sp_hard_sphere_helmholtz<S: Scalar>(state: State<S>, d: Seq<S>) -> S {
    let z0 = sp_zeta(state.partial_density@, d, 0);
    let z1 = sp_zeta(state.partial_density@, d, 1);
    let z2 = sp_zeta(state.partial_density@, d, 2);
    let z3 = sp_zeta(state.partial_density@, d, 3);
    let omz = S::sp_one().sp_minus(z3);
    state.volume.sp_times(S::sp_from_ratio(6i64, 1i64).sp_div(S::sp_pi())).sp_times(
        S::sp_from_ratio(3i64, 1i64).sp_times(z1).sp_times(z2).sp_div(omz).sp_plus(
            sp_powi(z2, 3).sp_div(z3.sp_times(sp_powi(omz, 2))),
        ).sp_plus(
            sp_powi(z2, 3).sp_div(sp_powi(z3, 2)).sp_minus(z0).sp_times(omz.sp_ln()),
        ),
    )
}

/// The hard-sphere Helmholtz energy, over the thermal energy, at the given
/// state: the Boublik-Mansoori mixture expression over the moments of the
/// supplied effective diameters.
pub fn hard_sphere_energy<S: Scalar>(state: &State<S>, d: &Vec<S>) -> (r: S)
    requires
        state.wf(),
        d@.len() == state.n(),
    ensures
        r == sp_hard_sphere_helmholtz(*state, d@),
{
    let z0 = zeta(&state.partial_density, d, 0);
    let z1 = zeta(&state.partial_density, d, 1);
    let z2 = zeta(&state.partial_density, d, 2);
    let z3 = zeta(&state.partial_density, d, 3);
    let omz = S::one().minus(z3);
    state.volume.times(S::from_ratio(6, 1).div(S::pi())).times(
        S::from_ratio(3, 1).times(z1).times(z2).div(omz).plus(
            powi(z2, 3).div(z3.times(powi(omz, 2))),
        ).plus(powi(z2, 3).div(powi(z3, 2)).minus(z0).times(omz.ln())),
    )
}

impl<S: Scalar> HardSphere<S> {
    /// The hard-sphere Helmholtz energy, over the thermal energy, at the
    /// given state.
    pub fn helmholtz_energy(&self, state: &State<S>, d: &Vec<S>) -> (r: S)
        requires
            state.wf(),
            d@.len() == state.n(),
        ensures
            r == sp_hard_sphere_helmholtz(*state, d@),
    {
        hard_sphere_energy(state, d)
    }
}

} // verus!
