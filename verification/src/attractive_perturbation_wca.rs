//! Attractive-perturbation contribution.
//!
//! The densest term of the theory: one-fluid mixing reduces the mixture to
//! effective single-component parameters, a rational correction in reduced
//! density with thirty-six fitted constants refines the mean-field integral,
//! a hyperbolic-tangent blend interpolates between the low- and high-density
//! asymptotics, and an empirically fitted second-virial deviation closes the
//! low-density limit.
//!
//! The algorithm is the same in both divisions; what distinguishes them is
//! the fitted constant set [`AttractiveConstants`].  The
//! Weeks-Chandler-Andersen set is compiled in as [`wca_constants`]; the
//! Barker-Henderson evaluator takes its set as a supplied input, like the
//! temperature-dependent effective diameters `d` and shape diameters `q`
//! that every evaluator here receives from the hard-sphere correlations.

use vstd::prelude::*;

use crate::mie::{
    mean_field_constant, mie_prefactor, potential_minimum_position, sp_mean_field_constant,
    sp_mie_prefactor, sp_potential_minimum_position, sp_three,
};
use crate::parameters::UVParameters;
use crate::scalar::{
    grid_flat, lemma_sum_grid_row_end, lemma_sum_grid_step, powi, sp_powi, sum_grid, sum_upto,
    Scalar,
};
use crate::state::{sp_sum, State};

verus! {

/// Attractive-perturbation contribution in the Weeks-Chandler-Andersen
/// division.
#[derive(Clone, Debug)]
pub struct AttractivePerturbationWCA<S: Scalar> {
    /// The shared, read-only parameter set.
    pub parameters: UVParameters<S>,
}

/// Effective single-component parameters of the one-fluid mixture.
#[derive(Copy, Clone, Debug)]
pub struct OneFluidProperties<S: Scalar> {
    /// Effective repulsive exponent.
    pub rep: S,
    /// Effective attractive exponent.
    pub att: S,
    /// Effective size.
    pub sigma: S,
    /// Mole-fraction-weighted sum of pairwise cubed sizes.
    pub weighted_sigma3: S,
    /// Effective energy.
    pub epsilon_k: S,
    /// Effective reduced reference diameter.
    pub d: S,
    /// Effective reduced shape diameter.
    pub q: S,
}

/// One row of the rational-correction table: the six fitted constants of
/// one coefficient.
#[derive(Copy, Clone, Debug)]
pub struct CorrelationRow<S: Scalar> {
    pub k0: S,
    pub k1: S,
    pub k2: S,
    pub k3: S,
    pub k4: S,
    pub k5: S,
}

/// The fitted constant set of one division's attractive-perturbation term:
/// the six rows of the rational density correction, the three u-fraction
/// constants, and the coefficient pairs and exponents of the effective
/// inverse-temperature correlation.
#[derive(Copy, Clone, Debug)]
pub struct AttractiveConstants<S: Scalar> {
    /// Rows of the rational-correction table, one per coefficient.
    pub c1: CorrelationRow<S>,
    pub c2: CorrelationRow<S>,
    pub c3: CorrelationRow<S>,
    pub c4: CorrelationRow<S>,
    pub c5: CorrelationRow<S>,
    pub c6: CorrelationRow<S>,
    /// u-fraction blend constants: linear, quadratic, inverse-exponent.
    pub u0: S,
    pub u1: S,
    pub u2: S,
    /// Coefficient pairs of the effective inverse-temperature correlation,
    /// each a degree-one polynomial in the inverse repulsive exponent.
    pub v10: S,
    pub v11: S,
    pub v20: S,
    pub v21: S,
    pub v30: S,
    pub v31: S,
    /// Exponents of the effective inverse-temperature correlation.
    pub e1: S,
    pub e2: S,
    pub e3: S,
}

/// Mirror of [`wca_constants`].
pub open spec fn sp_wca_constants<S: Scalar>() -> AttractiveConstants<S> {
    AttractiveConstants {
        c1: CorrelationRow {
            k0: S::sp_from_ratio(-2622378162i64, 10000000000i64),
            k1: S::sp_from_ratio(6585817423i64, 10000000000i64),
            k2: S::sp_from_ratio(55318022309i64, 10000000000i64),
            k3: S::sp_from_ratio(6902354794i64, 10000000000i64),
            k4: S::sp_from_ratio(-36825190645i64, 10000000000i64),
            k5: S::sp_from_ratio(-17263213318i64, 10000000000i64),
        },
        c2: CorrelationRow {
            k0: S::sp_from_ratio(-1899241690i64, 10000000000i64),
            k1: S::sp_from_ratio(-5555205158i64, 10000000000i64),
            k2: S::sp_from_ratio(91361398949i64, 10000000000i64),
            k3: S::sp_from_ratio(7966155658i64, 10000000000i64),
            k4: S::sp_from_ratio(-61413017045i64, 10000000000i64),
            k5: S::sp_from_ratio(49553415149i64, 10000000000i64),
        },
        c3: CorrelationRow {
            k0: S::sp_from_ratio(1169786415i64, 10000000000i64),
            k1: S::sp_from_ratio(-2216804790i64, 10000000000i64),
            k2: S::sp_from_ratio(-20470861617i64, 10000000000i64),
            k3: S::sp_from_ratio(-3742261343i64, 10000000000i64),
            k4: S::sp_from_ratio(9568416381i64, 10000000000i64),
            k5: S::sp_from_ratio(101401796764i64, 10000000000i64),
        },
        c4: CorrelationRow {
            k0: S::sp_from_ratio(5852642702i64, 10000000000i64),
            k1: S::sp_from_ratio(20795520346i64, 10000000000i64),
            k2: S::sp_from_ratio(190711829725i64, 10000000000i64),
            k3: S::sp_from_ratio(-23403594600i64, 10000000000i64),
            k4: S::sp_from_ratio(25833371420i64, 10000000000i64),
            k5: S::sp_from_ratio(4323858674425i64, 10000000000i64),
        },
        c5: CorrelationRow {
            k0: S::sp_from_ratio(-6084232211i64, 10000000000i64),
            k1: S::sp_from_ratio(-72376034572i64, 10000000000i64),
            k2: S::sp_from_ratio(190412933614i64, 10000000000i64),
            k3: S::sp_from_ratio(32388986513i64, 10000000000i64),
            k4: S::sp_from_ratio(754442555789i64, 10000000000i64),
            k5: S::sp_from_ratio(-5883837110653i64, 10000000000i64),
        },
        c6: CorrelationRow {
            k0: S::sp_from_ratio(512327656i64, 10000000000i64),
            k1: S::sp_from_ratio(66667943569i64, 10000000000i64),
            k2: S::sp_from_ratio(471109947616i64, 10000000000i64),
            k3: S::sp_from_ratio(-5011125797i64, 10000000000i64),
            k4: S::sp_from_ratio(-348918383146i64, 10000000000i64),
            k5: S::sp_from_ratio(1895498636006i64, 10000000000i64),
        },
        u0: S::sp_from_ratio(14419i64, 10000i64),
        u1: S::sp_from_ratio(11169i64, 10000i64),
        u2: S::sp_from_ratio(168810i64, 10000i64),
        v10: S::sp_from_ratio(145805207053190i64, 100000000000000000i64),
        v11: S::sp_from_ratio(357786067657446i64, 10000000000000000i64),
        v20: S::sp_from_ratio(125869266841313i64, 1000000000000000000i64),
        v21: S::sp_from_ratio(179889086453277i64, 100000000000000000i64),
        v30: S::sp_from_ratio(0i64, 1i64),
        v31: S::sp_from_ratio(0i64, 1i64),
        e1: S::sp_from_ratio(105968091375869i64, 100000000000000i64),
        e2: S::sp_from_ratio(341106168592999i64, 100000000000000i64),
        e3: S::sp_from_ratio(0i64, 1i64),
    }
}

/// The fitted constant set of the Weeks-Chandler-Andersen division.
pub fn wca_constants<S: Scalar>() -> (r: AttractiveConstants<S>)
    ensures
        r == sp_wca_constants::<S>(),
{
    AttractiveConstants {
        c1: CorrelationRow {
            k0: S::from_ratio(-2622378162, 10000000000),
            k1: S::from_ratio(6585817423, 10000000000),
            k2: S::from_ratio(55318022309, 10000000000),
            k3: S::from_ratio(6902354794, 10000000000),
            k4: S::from_ratio(-36825190645, 10000000000),
            k5: S::from_ratio(-17263213318, 10000000000),
        },
        c2: CorrelationRow {
            k0: S::from_ratio(-1899241690, 10000000000),
            k1: S::from_ratio(-5555205158, 10000000000),
            k2: S::from_ratio(91361398949, 10000000000),
            k3: S::from_ratio(7966155658, 10000000000),
            k4: S::from_ratio(-61413017045, 10000000000),
            k5: S::from_ratio(49553415149, 10000000000),
        },
        c3: CorrelationRow {
            k0: S::from_ratio(1169786415, 10000000000),
            k1: S::from_ratio(-2216804790, 10000000000),
            k2: S::from_ratio(-20470861617, 10000000000),
            k3: S::from_ratio(-3742261343, 10000000000),
            k4: S::from_ratio(9568416381, 10000000000),
            k5: S::from_ratio(101401796764, 10000000000),
        },
        c4: CorrelationRow {
            k0: S::from_ratio(5852642702, 10000000000),
            k1: S::from_ratio(20795520346, 10000000000),
            k2: S::from_ratio(190711829725, 10000000000),
            k3: S::from_ratio(-23403594600, 10000000000),
            k4: S::from_ratio(25833371420, 10000000000),
            k5: S::from_ratio(4323858674425, 10000000000),
        },
        c5: CorrelationRow {
            k0: S::from_ratio(-6084232211, 10000000000),
            k1: S::from_ratio(-72376034572, 10000000000),
            k2: S::from_ratio(190412933614, 10000000000),
            k3: S::from_ratio(32388986513, 10000000000),
            k4: S::from_ratio(754442555789, 10000000000),
            k5: S::from_ratio(-5883837110653, 10000000000),
        },
        c6: CorrelationRow {
            k0: S::from_ratio(512327656, 10000000000),
            k1: S::from_ratio(66667943569, 10000000000),
            k2: S::from_ratio(471109947616, 10000000000),
            k3: S::from_ratio(-5011125797, 10000000000),
            k4: S::from_ratio(-348918383146, 10000000000),
            k5: S::from_ratio(1895498636006, 10000000000),
        },
        u0: S::from_ratio(14419, 10000),
        u1: S::from_ratio(11169, 10000),
        u2: S::from_ratio(168810, 10000),
        v10: S::from_ratio(145805207053190, 100000000000000000),
        v11: S::from_ratio(357786067657446, 10000000000000000),
        v20: S::from_ratio(125869266841313, 1000000000000000000),
        v21: S::from_ratio(179889086453277, 100000000000000000),
        v30: S::from_ratio(0, 1),
        v31: S::from_ratio(0, 1),
        e1: S::from_ratio(105968091375869, 100000000000000),
        e2: S::from_ratio(341106168592999, 100000000000000),
        e3: S::from_ratio(0, 1),
    }
}

/// Mirror of the effective repulsive exponent: the double mole-fraction
/// weighted sum of pairwise combined repulsive exponents.
pub open spec fn sp_of_rep<S: Scalar>(p: UVParameters<S>, x: Seq<S>) -> S {
    sum_grid(
        p.n(),
        |i: int, j: int| x[i].sp_times(x[j]).sp_times(p.rep_ij@[i]@[j]),
    )
}

/// Mirror of the effective attractive exponent.
pub open spec fn sp_of_att<S: Scalar>(p: UVParameters<S>, x: Seq<S>) -> S {
    sum_grid(
        p.n(),
        |i: int, j: int| x[i].sp_times(x[j]).sp_times(p.att_ij@[i]@[j]),
    )
}

/// Mirror of the weighted cubed-size sum.
pub open spec fn sp_of_weighted_sigma3<S: Scalar>(p: UVParameters<S>, x: Seq<S>) -> S {
    sum_grid(
        p.n(),
        |i: int, j: int| x[i].sp_times(x[j]).sp_times(sp_powi(p.sigma_ij@[i]@[j], 3)),
    )
}

/// Mirror of the energy accumulator: the weighted cubed-size terms, each
/// scaled by the pairwise combined energy.
pub open spec fn sp_of_energy_sum<S: Scalar>(p: UVParameters<S>, x: Seq<S>) -> S {
    sum_grid(
        p.n(),
        |i: int, j: int|
            x[i].sp_times(x[j]).sp_times(sp_powi(p.sigma_ij@[i]@[j], 3)).sp_times(
                p.eps_k_ij@[i]@[j],
            ),
    )
}

/// Mirror of the effective energy: the energy accumulator over the weighted
/// cubed-size sum.
pub open spec fn sp_of_epsilon_k<S: Scalar>(p: UVParameters<S>, x: Seq<S>) -> S {
    sp_of_energy_sum(p, x).sp_div(sp_of_weighted_sigma3(p, x))
}

/// Mirror of the effective size: the cube root of the mole-fraction weighted
/// cubed sizes.
pub open spec fn sp_of_sigma_x<S: Scalar>(p: UVParameters<S>, x: Seq<S>) -> S {
    sum_upto(p.n(), |i: int| x[i].sp_times(sp_powi(p.sigma@[i], 3))).sp_powd(
        S::sp_from_ratio(1i64, 3i64),
    )
}

/// Mirror of an effective reduced diameter: the cube-mean of the supplied
/// per-component diameters, each reduced by its component's size.
pub open spec fn sp_of_diameter_x<S: Scalar>(p: UVParameters<S>, x: Seq<S>, d: Seq<S>) -> S {
    sum_upto(p.n(), |i: int| x[i].sp_times(sp_powi(d[i].sp_div(p.sigma@[i]), 3))).sp_powd(
        S::sp_from_ratio(1i64, 3i64),
    )
}

/// One-fluid mixing: reduces the mixture with composition `x` to effective
/// single-component parameters.  The per-component reference diameters `d`
/// and shape diameters `q` are supplied by the temperature-dependent
/// hard-sphere correlations.
pub fn one_fluid_properties<S: Scalar>(
    p: &UVParameters<S>,
    x: &Vec<S>,
    d: &Vec<S>,
    q: &Vec<S>,
) -> (r: OneFluidProperties<S>)
    requires
        p.wf(),
        x@.len() == p.n(),
        d@.len() == p.n(),
        q@.len() == p.n(),
    ensures
        r.rep == sp_of_rep(*p, x@),
        r.att == sp_of_att(*p, x@),
        r.sigma == sp_of_sigma_x(*p, x@),
        r.weighted_sigma3 == sp_of_weighted_sigma3(*p, x@),
        r.epsilon_k == sp_of_epsilon_k(*p, x@),
        r.d == sp_of_diameter_x(*p, x@, d@),
        r.q == sp_of_diameter_x(*p, x@, q@),
{
    let n = p.ncomponents;
    let ghost pn = p.n() as int;
    let mut weighted_sigma3 = S::zero();
    let mut energy = S::zero();
    let mut rep = S::zero();
    let mut att = S::zero();
    let mut i: usize = 0;
    while i < n
        invariant
            i <= n,
            n == pn,
            pn == p.n(),
            p.wf(),
            x@.len() == pn,
            rep == sum_upto(
                (i * n) as nat,
                grid_flat(pn, |a: int, b: int| x@[a].sp_times(x@[b]).sp_times(p.rep_ij@[a]@[b])),
            ),
            att == sum_upto(
                (i * n) as nat,
                grid_flat(pn, |a: int, b: int| x@[a].sp_times(x@[b]).sp_times(p.att_ij@[a]@[b])),
            ),
            weighted_sigma3 == sum_upto(
                (i * n) as nat,
                grid_flat(
                    pn,
                    |a: int, b: int|
                        x@[a].sp_times(x@[b]).sp_times(sp_powi(p.sigma_ij@[a]@[b], 3)),
                ),
            ),
            energy == sum_upto(
                (i * n) as nat,
                grid_flat(
                    pn,
                    |a: int, b: int|
                        x@[a].sp_times(x@[b]).sp_times(sp_powi(p.sigma_ij@[a]@[b], 3)).sp_times(
                            p.eps_k_ij@[a]@[b],
                        ),
                ),
            ),
        decreases n - i,
    {
        let mut j: usize = 0;
        while j < n
            invariant
                i < n,
                j <= n,
                n == pn,
                pn == p.n(),
                p.wf(),
                x@.len() == pn,
                rep == sum_upto(
                    (i * n + j) as nat,
                    grid_flat(
                        pn,
                        |a: int, b: int| x@[a].sp_times(x@[b]).sp_times(p.rep_ij@[a]@[b]),
                    ),
                ),
                att == sum_upto(
                    (i * n + j) as nat,
                    grid_flat(
                        pn,
                        |a: int, b: int| x@[a].sp_times(x@[b]).sp_times(p.att_ij@[a]@[b]),
                    ),
                ),
                weighted_sigma3 == sum_upto(
                    (i * n + j) as nat,
                    grid_flat(
                        pn,
                        |a: int, b: int|
                            x@[a].sp_times(x@[b]).sp_times(sp_powi(p.sigma_ij@[a]@[b], 3)),
                    ),
                ),
                energy == sum_upto(
                    (i * n + j) as nat,
                    grid_flat(
                        pn,
                        |a: int, b: int|
                            x@[a].sp_times(x@[b]).sp_times(sp_powi(p.sigma_ij@[a]@[b], 3)).sp_times(
                                p.eps_k_ij@[a]@[b],
                            ),
                    ),
                ),
            decreases n - j,
        {
            let y = x[i].times(x[j]).times(powi(p.sigma_ij[i][j], 3));
            proof {
                lemma_sum_grid_step(
                    pn,
                    i as int,
                    j as int,
                    |a: int, b: int| x@[a].sp_times(x@[b]).sp_times(p.rep_ij@[a]@[b]),
                );
                lemma_sum_grid_step(
                    pn,
                    i as int,
                    j as int,
                    |a: int, b: int| x@[a].sp_times(x@[b]).sp_times(p.att_ij@[a]@[b]),
                );
                lemma_sum_grid_step(
                    pn,
                    i as int,
                    j as int,
                    |a: int, b: int|
                        x@[a].sp_times(x@[b]).sp_times(sp_powi(p.sigma_ij@[a]@[b], 3)),
                );
                lemma_sum_grid_step(
                    pn,
                    i as int,
                    j as int,
                    |a: int, b: int|
                        x@[a].sp_times(x@[b]).sp_times(sp_powi(p.sigma_ij@[a]@[b], 3)).sp_times(
                            p.eps_k_ij@[a]@[b],
                        ),
                );
            }
            weighted_sigma3 = weighted_sigma3.plus(y);
            energy = energy.plus(y.times(p.eps_k_ij[i][j]));
            rep = rep.plus(x[i].times(x[j]).times(p.rep_ij[i][j]));
            att = att.plus(x[i].times(x[j]).times(p.att_ij[i][j]));
            j = j + 1;
        }
        proof {
            lemma_sum_grid_row_end(pn, i as int);
        }
        i = i + 1;
    }
    proof {
        lemma_sum_grid_row_end(pn, pn - 1);
    }
    let third = S::from_ratio(1, 3);
    let mut sig3 = S::zero();
    let mut d3 = S::zero();
    let mut q3 = S::zero();
    let mut i: usize = 0;
    while i < n
        invariant
            i <= n,
            n == pn,
            pn == p.n(),
            p.wf(),
            x@.len() == pn,
            d@.len() == pn,
            q@.len() == pn,
            sig3 == sum_upto(i as nat, |a: int| x@[a].sp_times(sp_powi(p.sigma@[a], 3))),
            d3 == sum_upto(
                i as nat,
                |a: int| x@[a].sp_times(sp_powi(d@[a].sp_div(p.sigma@[a]), 3)),
            ),
            q3 == sum_upto(
                i as nat,
                |a: int| x@[a].sp_times(sp_powi(q@[a].sp_div(p.sigma@[a]), 3)),
            ),
        decreases n - i,
    {
        sig3 = sig3.plus(x[i].times(powi(p.sigma[i], 3)));
        d3 = d3.plus(x[i].times(powi(d[i].div(p.sigma[i]), 3)));
        q3 = q3.plus(x[i].times(powi(q[i].div(p.sigma[i]), 3)));
        i = i + 1;
    }
    OneFluidProperties {
        rep,
        att,
        sigma: sig3.powd(third),
        weighted_sigma3,
        epsilon_k: energy.div(weighted_sigma3),
        d: d3.powd(third),
        q: q3.powd(third),
    }
}

/// Mirror of [`u_fraction`].
pub open spec fn sp_u_fraction<S: Scalar>(
    rep_x: S,
    reduced_density: S,
    c: AttractiveConstants<S>,
) -> S {
    reduced_density.sp_times(c.u0).sp_plus(
        sp_powi(reduced_density, 2).sp_times(rep_x.sp_recip().sp_times(c.u2).sp_plus(c.u1)),
    ).sp_tanh()
}

/// The u-fraction blend: a saturating hyperbolic tangent in reduced density
/// with three fitted constants, interpolating between the perturbation
/// term's low- and high-density asymptotics.
pub fn u_fraction<S: Scalar>(rep_x: S, reduced_density: S, c: AttractiveConstants<S>) -> (r: S)
    ensures
        r == sp_u_fraction(rep_x, reduced_density, c),
{
    reduced_density.times(c.u0).plus(
        powi(reduced_density, 2).times(rep_x.recip().times(c.u2).plus(c.u1)),
    ).tanh()
}

/// Mirror of [`delta_b12u`].
pub open spec fn sp_delta_b12u<S: Scalar>(
    t_x: S,
    mean_field_constant_x: S,
    weighted_sigma3: S,
    q_x: S,
    rm_x: S,
) -> S {
    mean_field_constant_x.sp_neg().sp_minus(
        sp_powi(rm_x, 3).sp_minus(sp_powi(q_x, 3)).sp_div(sp_three::<S>()),
    ).sp_div(t_x).sp_times(S::sp_from_ratio(2i64, 1i64)).sp_times(S::sp_pi()).sp_times(weighted_sigma3)
}

/// First-order contribution to the second-virial deviation: the mean-field
/// constant and the geometric cube-difference term, scaled by inverse
/// reduced temperature and the weighted cubed sizes.
pub fn delta_b12u<S: Scalar>(
    t_x: S,
    mean_field_constant_x: S,
    weighted_sigma3: S,
    q_x: S,
    rm_x: S,
) -> (r: S)
    ensures
        r == sp_delta_b12u(t_x, mean_field_constant_x, weighted_sigma3, q_x, rm_x),
{
    mean_field_constant_x.neg().minus(
        powi(rm_x, 3).minus(powi(q_x, 3)).div(S::from_ratio(3, 1)),
    ).div(t_x).times(S::from_ratio(2, 1)).times(S::pi()).times(weighted_sigma3)
}

/// The six coefficients of the rational density correction.
#[derive(Copy, Clone, Debug)]
pub struct CorrelationCoefficients<S: Scalar> {
    pub c1: S,
    pub c2: S,
    pub c3: S,
    pub c4: S,
    pub c5: S,
    pub c6: S,
}

/// Mirror of [`coefficient_poly`].
pub open spec fn sp_coefficient_poly<S: Scalar>(rep_inv: S, tau: S, row: CorrelationRow<S>) -> S {
    sp_powi(rep_inv, 2).sp_times(row.k2).sp_plus(row.k0).sp_plus(rep_inv.sp_times(row.k1)).sp_plus(
        sp_powi(rep_inv, 2).sp_times(row.k5).sp_plus(rep_inv.sp_times(row.k4)).sp_plus(
            row.k3,
        ).sp_times(tau),
    )
}

/// One coefficient of the rational correction: a quadratic polynomial in the
/// inverse repulsive exponent plus a term scaled by the shape parameter.
fn coefficient_poly<S: Scalar>(rep_inv: S, tau: S, row: CorrelationRow<S>) -> (r: S)
    ensures
        r == sp_coefficient_poly(rep_inv, tau, row),
{
    powi(rep_inv, 2).times(row.k2).plus(row.k0).plus(rep_inv.times(row.k1)).plus(
        powi(rep_inv, 2).times(row.k5).plus(rep_inv.times(row.k4)).plus(row.k3).times(tau),
    )
}

/// Mirror of [`coefficients`]: the shape parameter is the distance from
/// the reduced potential-minimum position to the effective diameter.
pub open spec fn sp_coefficients<S: Scalar>(
    rep: S,
    att: S,
    d: S,
    c: AttractiveConstants<S>,
) -> CorrelationCoefficients<S> {
    let rep_inv = rep.sp_recip();
    let tau = d.sp_neg().sp_plus(sp_potential_minimum_position(rep, att));
    CorrelationCoefficients {
        c1: sp_coefficient_poly(rep_inv, tau, c.c1),
        c2: sp_coefficient_poly(rep_inv, tau, c.c2),
        c3: sp_coefficient_poly(rep_inv, tau, c.c3),
        c4: sp_coefficient_poly(rep_inv, tau, c.c4),
        c5: sp_coefficient_poly(rep_inv, tau, c.c5),
        c6: sp_coefficient_poly(rep_inv, tau, c.c6),
    }
}

/// The six fitted coefficients of the rational density correction, each a
/// quadratic polynomial in the inverse repulsive exponent plus a term scaled
/// by the shape parameter `tau = rm - d`.
pub fn coefficients<S: Scalar>(rep: S, att: S, d: S, c: AttractiveConstants<S>) -> (r:
    CorrelationCoefficients<S>)
    ensures
        r == sp_coefficients(rep, att, d, c),
{
    let rep_inv = rep.recip();
    let rs_x = potential_minimum_position(rep, att);
    let tau_x = d.neg().plus(rs_x);
    CorrelationCoefficients {
        c1: coefficient_poly(rep_inv, tau_x, c.c1),
        c2: coefficient_poly(rep_inv, tau_x, c.c2),
        c3: coefficient_poly(rep_inv, tau_x, c.c3),
        c4: coefficient_poly(rep_inv, tau_x, c.c4),
        c5: coefficient_poly(rep_inv, tau_x, c.c5),
        c6: coefficient_poly(rep_inv, tau_x, c.c6),
    }
}

/// Mirror of [`correlation_integral`].
pub open spec fn sp_correlation_integral<S: Scalar>(
    rho_x: S,
    mean_field_constant_x: S,
    rep_x: S,
    att_x: S,
    d_x: S,
    q_x: S,
    rm_x: S,
    k: AttractiveConstants<S>,
) -> S {
    let c = sp_coefficients(rep_x, att_x, d_x, k);
    sp_powi(q_x, 3).sp_minus(sp_powi(rm_x, 3)).sp_div(sp_three::<S>()).sp_minus(
        mean_field_constant_x,
    ).sp_plus(
        sp_mie_prefactor(rep_x, att_x).sp_times(
            c.c1.sp_times(rho_x).sp_plus(c.c2.sp_times(sp_powi(rho_x, 2))).sp_plus(
                c.c3.sp_times(sp_powi(rho_x, 3)),
            ),
        ).sp_div(
            c.c4.sp_times(rho_x).sp_plus(c.c5.sp_times(sp_powi(rho_x, 2))).sp_plus(
                c.c6.sp_times(sp_powi(rho_x, 3)),
            ).sp_plus(S::sp_one()),
        ),
    )
}

/// The correlation integral: the geometric cube-difference term, the
/// mean-field constant and the rational density correction.
pub fn correlation_integral<S: Scalar>(
    rho_x: S,
    mean_field_constant_x: S,
    rep_x: S,
    att_x: S,
    d_x: S,
    q_x: S,
    rm_x: S,
    k: AttractiveConstants<S>,
) -> (r: S)
    ensures
        r == sp_correlation_integral(
            rho_x,
            mean_field_constant_x,
            rep_x,
            att_x,
            d_x,
            q_x,
            rm_x,
            k,
        ),
{
    let c = coefficients(rep_x, att_x, d_x, k);
    powi(q_x, 3).minus(powi(rm_x, 3)).div(S::from_ratio(3, 1)).minus(mean_field_constant_x).plus(
        mie_prefactor(rep_x, att_x).times(
            c.c1.times(rho_x).plus(c.c2.times(powi(rho_x, 2))).plus(c.c3.times(powi(rho_x, 3))),
        ).div(
            c.c4.times(rho_x).plus(c.c5.times(powi(rho_x, 2))).plus(
                c.c6.times(powi(rho_x, 3)),
            ).plus(S::one()),
        ),
    )
}

/// Mirror of [`y_eff`].
pub open spec fn sp_y_eff<S: Scalar>(reduced_temperature: S, rep: S, att: S, k: AttractiveConstants<S>) -> S {
    let rc = S::sp_from_ratio(5i64, 1i64);
    let rs = sp_potential_minimum_position(rep, att);
    let c0 = S::sp_one().sp_minus(
        sp_three::<S>().sp_times(
            sp_mean_field_constant(rep, att, rs).sp_minus(sp_mean_field_constant(rep, att, rc)),
        ).sp_div(sp_powi(rc, 3).sp_minus(sp_powi(rs, 3))),
    );
    let c1 = k.v10.sp_plus(k.v11.sp_div(rep));
    let c2 = k.v20.sp_plus(k.v21.sp_div(rep));
    let c3 = k.v30.sp_plus(k.v31.sp_div(rep));
    let beta = reduced_temperature.sp_recip();
    let beta_eff = beta.sp_times(
        beta.sp_powd(k.e1).sp_times(c1).sp_plus(beta.sp_powd(k.e2).sp_times(c2)).sp_plus(
            beta.sp_powd(k.e3).sp_times(c3),
        ).sp_plus(S::sp_one()).sp_recip().sp_neg().sp_times(c0).sp_plus(S::sp_one()),
    );
    beta_eff.sp_exp().sp_minus(S::sp_one())
}

/// The effective inverse-temperature correlation of the second-virial
/// deviation: a fitted rational function of the inverse reduced temperature
/// with two fitted exponents.
pub fn y_eff<S: Scalar>(reduced_temperature: S, rep: S, att: S, k: AttractiveConstants<S>) -> (r: S)
    ensures
        r == sp_y_eff(reduced_temperature, rep, att, k),
{
    let rc = S::from_ratio(5, 1);
    let rs = potential_minimum_position(rep, att);
    let c0 = S::one().minus(
        S::from_ratio(3, 1).times(
            mean_field_constant(rep, att, rs).minus(mean_field_constant(rep, att, rc)),
        ).div(powi(rc, 3).minus(powi(rs, 3))),
    );
    let c1 = k.v10.plus(k.v11.div(rep));
    let c2 = k.v20.plus(k.v21.div(rep));
    let c3 = k.v30.plus(k.v31.div(rep));
    let beta = reduced_temperature.recip();
    let beta_eff = beta.times(
        beta.powd(k.e1).times(c1).plus(beta.powd(k.e2).times(c2)).plus(
            beta.powd(k.e3).times(c3),
        ).plus(S::one()).recip().neg().times(c0).plus(S::one()),
    );
    beta_eff.exp().minus(S::one())
}

/// Mirror of [`delta_b2`].
pub open spec fn sp_delta_b2<S: Scalar>(
    reduced_temperature: S,
    rep: S,
    att: S,
    q: S,
    k: AttractiveConstants<S>,
) -> S {
    let rm = sp_potential_minimum_position(rep, att);
    let rc = S::sp_from_ratio(5i64, 1i64);
    let alpha = sp_mean_field_constant(rep, att, rc);
    let beta = reduced_temperature.sp_recip();
    let y = beta.sp_exp().sp_minus(S::sp_one());
    let yeff = sp_y_eff(reduced_temperature, rep, att, k);
    yeff.sp_times(sp_powi(rc, 3).sp_minus(sp_powi(rm, 3))).sp_div(sp_three::<S>()).sp_plus(
        y.sp_times(sp_powi(q, 3).sp_neg().sp_plus(sp_powi(rm, 3))).sp_div(sp_three::<S>()),
    ).sp_plus(beta.sp_times(alpha)).sp_neg().sp_times(S::sp_from_ratio(2i64, 1i64)).sp_times(S::sp_pi())
}

/// Pairwise second-virial deviation: the effective correlation, the plain
/// Mayer factor and the mean-field constant at the fixed outer cutoff of
/// five sizes.
pub fn delta_b2<S: Scalar>(
    reduced_temperature: S,
    rep: S,
    att: S,
    q: S,
    k: AttractiveConstants<S>,
) -> (r: S)
    ensures
        r == sp_delta_b2(reduced_temperature, rep, att, q, k),
{
    let rm = potential_minimum_position(rep, att);
    let rc = S::from_ratio(5, 1);
    let three = S::from_ratio(3, 1);
    let alpha = mean_field_constant(rep, att, rc);
    let beta = reduced_temperature.recip();
    let y = beta.exp().minus(S::one());
    let yeff = y_eff(reduced_temperature, rep, att, k);
    yeff.times(powi(rc, 3).minus(powi(rm, 3))).div(three).plus(
        y.times(powi(q, 3).neg().plus(powi(rm, 3))).div(three),
    ).plus(beta.times(alpha)).neg().times(S::from_ratio(2, 1)).times(S::pi())
}

/// Mirror of the pairwise term of [`residual_virial_coefficient`].
pub open spec fn sp_virial_term<S: Scalar>(
    p: UVParameters<S>,
    x: Seq<S>,
    t: S,
    q: Seq<S>,
    k: AttractiveConstants<S>,
    i: int,
    j: int,
) -> S {
    let q_ij = q[i].sp_div(p.sigma@[i]).sp_plus(q[j].sp_div(p.sigma@[j])).sp_times(
        S::sp_from_ratio(1i64, 2i64),
    );
    x[i].sp_times(x[j]).sp_times(sp_powi(p.sigma_ij@[i]@[j], 3)).sp_times(
        sp_delta_b2(t.sp_div(p.eps_k_ij@[i]@[j]), p.rep_ij@[i]@[j], p.att_ij@[i]@[j], q_ij, k),
    )
}

/// Mirror of [`residual_virial_coefficient`].
pub open spec fn sp_residual_virial_coefficient<S: Scalar>(
    p: UVParameters<S>,
    x: Seq<S>,
    t: S,
    q: Seq<S>,
    k: AttractiveConstants<S>,
) -> S {
    sum_grid(p.n(), |i: int, j: int| sp_virial_term(p, x, t, q, k, i, j))
}

/// The mixture's residual second virial coefficient: pairwise deviations
/// weighted by mole-fraction products and cubed combined sizes.  The
/// per-component shape diameters `q` are supplied by the hard-sphere
/// correlations; the pairwise shape diameter is their reduced mean, a
/// provisional mixing rule.
pub fn residual_virial_coefficient<S: Scalar>(
    p: &UVParameters<S>,
    x: &Vec<S>,
    t: S,
    q: &Vec<S>,
    k: AttractiveConstants<S>,
) -> (r: S)
    requires
        p.wf(),
        x@.len() == p.n(),
        q@.len() == p.n(),
    ensures
        r == sp_residual_virial_coefficient(*p, x@, t, q@, k),
{
    let n = p.ncomponents;
    let ghost pn = p.n() as int;
    let half = S::from_ratio(1, 2);
    let mut acc = S::zero();
    let mut i: usize = 0;
    while i < n
        invariant
            i <= n,
            n == pn,
            pn == p.n(),
            p.wf(),
            x@.len() == pn,
            q@.len() == pn,
            half == S::sp_from_ratio(1i64, 2i64),
            acc == sum_upto(
                (i * n) as nat,
                grid_flat(pn, |a: int, b: int| sp_virial_term(*p, x@, t, q@, k, a, b)),
            ),
        decreases n - i,
    {
        let mut j: usize = 0;
        while j < n
            invariant
                i < n,
                j <= n,
                n == pn,
                pn == p.n(),
                p.wf(),
                x@.len() == pn,
                q@.len() == pn,
                half == S::sp_from_ratio(1i64, 2i64),
                acc == sum_upto(
                    (i * n + j) as nat,
                    grid_flat(pn, |a: int, b: int| sp_virial_term(*p, x@, t, q@, k, a, b)),
                ),
            decreases n - j,
        {
            let q_ij = q[i].div(p.sigma[i]).plus(q[j].div(p.sigma[j])).times(half);
            let term = x[i].times(x[j]).times(powi(p.sigma_ij[i][j], 3)).times(
                delta_b2(t.div(p.eps_k_ij[i][j]), p.rep_ij[i][j], p.att_ij[i][j], q_ij, k),
            );
            proof {
                lemma_sum_grid_step(
                    pn,
                    i as int,
                    j as int,
                    |a: int, b: int| sp_virial_term(*p, x@, t, q@, k, a, b),
                );
            }
            acc = acc.plus(term);
            j = j + 1;
        }
        proof {
            lemma_sum_grid_row_end(pn, i as int);
        }
        i = i + 1;
    }
    proof {
        lemma_sum_grid_row_end(pn, pn - 1);
    }
    acc
}

/// Mirror of [`attractive_energy`]: the whole term over one division's
/// fitted constant set.
pub open spec fn sp_attractive_helmholtz<S: Scalar>(
    p: UVParameters<S>,
    state: State<S>,
    d: Seq<S>,
    q: Seq<S>,
    k: AttractiveConstants<S>,
) -> S {
    let x = state.molefracs@;
    let density = sp_sum(state.partial_density@);
    let rep_x = sp_of_rep(p, x);
    let att_x = sp_of_att(p, x);
    let sigma_x = sp_of_sigma_x(p, x);
    let weighted_sigma3 = sp_of_weighted_sigma3(p, x);
    let epsilon_k_x = sp_of_epsilon_k(p, x);
    let d_x = sp_of_diameter_x(p, x, d);
    let q_x = sp_of_diameter_x(p, x, q);
    let t_x = state.temperature.sp_div(epsilon_k_x);
    let rho_x = density.sp_times(sp_powi(sigma_x, 3));
    let rm_x = sp_potential_minimum_position(rep_x, att_x);
    let mfc_x = sp_mean_field_constant(rep_x, att_x, rm_x);
    let i_corr = sp_correlation_integral(rho_x, mfc_x, rep_x, att_x, d_x, q_x, rm_x, k);
    let delta_a1u = density.sp_div(t_x).sp_times(i_corr).sp_times(S::sp_from_ratio(2i64, 1i64)).sp_times(
        S::sp_pi(),
    ).sp_times(weighted_sigma3);
    let u_fraction = sp_u_fraction(
        rep_x,
        density.sp_times(sum_upto(p.n(), |i: int| x[i].sp_times(sp_powi(p.sigma@[i], 3)))),
        k,
    );
    let b21u = sp_delta_b12u(t_x, mfc_x, weighted_sigma3, q_x, rm_x);
    let b2bar = sp_residual_virial_coefficient(p, x, state.temperature, q, k);
    sp_sum(state.moles@).sp_times(
        delta_a1u.sp_plus(
            u_fraction.sp_neg().sp_plus(S::sp_one()).sp_times(b2bar.sp_minus(b21u)).sp_times(
                density,
            ),
        ),
    )
}

/// Mirror of [`attractive_wca_energy`]: the term over the compiled-in
/// Weeks-Chandler-Andersen constant set.
pub open spec fn sp_attractive_wca_helmholtz<S: Scalar>(
    p: UVParameters<S>,
    state: State<S>,
    d: Seq<S>,
    q: Seq<S>,
) -> S {
    sp_attractive_helmholtz(p, state, d, q, sp_wca_constants())
}

/// The attractive-perturbation Helmholtz energy, over the thermal energy,
/// at the given state, with one division's fitted constant set.  The
/// per-component reference diameters `d` and shape diameters `q` at the
/// state's temperature are supplied by the caller from the hard-sphere
/// correlations.
pub fn attractive_energy<S: Scalar>(
    p: &UVParameters<S>,
    state: &State<S>,
    d: &Vec<S>,
    q: &Vec<S>,
    k: AttractiveConstants<S>,
) -> (r: S)
    requires
        p.wf(),
        state.wf(),
        state.n() == p.n(),
        d@.len() == p.n(),
        q@.len() == p.n(),
    ensures
        r == sp_attractive_helmholtz(*p, *state, d@, q@, k),
{
    let t = state.temperature;
    let density = state.density();
    let ofp = one_fluid_properties(p, &state.molefracs, d, q);
    let t_x = t.div(ofp.epsilon_k);
    let rho_x = density.times(powi(ofp.sigma, 3));
    let rm_x = potential_minimum_position(ofp.rep, ofp.att);
    let mean_field_constant_x = mean_field_constant(ofp.rep, ofp.att, rm_x);
    let i_corr = correlation_integral(
        rho_x,
        mean_field_constant_x,
        ofp.rep,
        ofp.att,
        ofp.d,
        ofp.q,
        rm_x,
        k,
    );
    let delta_a1u = density.div(t_x).times(i_corr).times(S::from_ratio(2, 1)).times(
        S::pi(),
    ).times(ofp.weighted_sigma3);
    let mut sig3_sum = S::zero();
    let mut i: usize = 0;
    while i < p.ncomponents
        invariant
            i <= p.ncomponents,
            p.wf(),
            state.wf(),
            state.n() == p.n(),
            sig3_sum == sum_upto(
                i as nat,
                |a: int| state.molefracs@[a].sp_times(sp_powi(p.sigma@[a], 3)),
            ),
        decreases p.ncomponents - i,
    {
        sig3_sum = sig3_sum.plus(state.molefracs[i].times(powi(p.sigma[i], 3)));
        i = i + 1;
    }
    let u_fraction = u_fraction(ofp.rep, density.times(sig3_sum), k);
    let b21u = delta_b12u(t_x, mean_field_constant_x, ofp.weighted_sigma3, ofp.q, rm_x);
    let b2bar = residual_virial_coefficient(p, &state.molefracs, t, q, k);
    state.total_moles().times(
        delta_a1u.plus(
            u_fraction.neg().plus(S::one()).times(b2bar.minus(b21u)).times(density),
        ),
    )
}

/// The attractive-perturbation Helmholtz energy in the
/// Weeks-Chandler-Andersen division: the generic term over the compiled-in
/// constant set of that division.
pub fn attractive_wca_energy<S: Scalar>(
    p: &UVParameters<S>,
    state: &State<S>,
    d: &Vec<S>,
    q: &Vec<S>,
) -> (r: S)
    requires
        p.wf(),
        state.wf(),
        state.n() == p.n(),
        d@.len() == p.n(),
        q@.len() == p.n(),
    ensures
        r == sp_attractive_wca_helmholtz(*p, *state, d@, q@),
{
    attractive_energy(p, state, d, q, wca_constants())
}

impl<S: Scalar> AttractivePerturbationWCA<S> {
    /// The attractive-perturbation Helmholtz energy, over the thermal
    /// energy, at the given state, with the diameters `d` and `q` supplied.
    pub fn helmholtz_energy(&self, state: &State<S>, d: &Vec<S>, q: &Vec<S>) -> (r: S)
        requires
            self.parameters.wf(),
            state.wf(),
            state.n() == self.parameters.n(),
            d@.len() == self.parameters.n(),
            q@.len() == self.parameters.n(),
        ensures
            r == sp_attractive_wca_helmholtz(self.parameters, *state, d@, q@),
    {
        attractive_wca_energy(&self.parameters, state, d, q)
    }
}

} // verus!
