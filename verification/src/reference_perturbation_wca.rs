//! Reference-perturbation contribution in the Weeks-Chandler-Andersen
//! division.
//!
//! Like the Barker-Henderson variant, but folding in the supplied shape
//! diameters and a pairwise effective potential-minimum position averaged
//! from each component's own minimum position (a provisional mixing rule).

use vstd::prelude::*;

use crate::hard_sphere::{closure_term, sp_closure_term};
use crate::mie::{potential_minimum_position, sp_potential_minimum_position};
use crate::parameters::{square_matrix, UVParameters};
use crate::scalar::{
    grid_flat, lemma_sum_grid_row_end, lemma_sum_grid_step, powi, sp_powi, sum_grid, sum_upto,
    Scalar,
};
use crate::state::{sp_sum, State};

verus! {

/// Reference-perturbation contribution in the Weeks-Chandler-Andersen
/// division.
#[derive(Clone, Debug)]
pub struct ReferencePerturbationWCA<S: Scalar> {
    /// The shared, read-only parameter set.
    pub parameters: UVParameters<S>,
}

/// Mirror of one pairwise term of the Weeks-Chandler-Andersen reference
/// perturbation: each closure term carries its own cube difference, from the
/// pairwise effective minimum position to the shape diameter and to the
/// reference diameter respectively.
pub open spec fn sp_ref_wca_term<S: Scalar>(
    p: UVParameters<S>,
    x: Seq<S>,
    d: Seq<S>,
    q: Seq<S>,
    eta_a: Seq<Vec<S>>,
    eta_b: Seq<Vec<S>>,
    i: int,
    j: int,
) -> S {
    let half = S::sp_from_ratio(1i64, 2i64);
    let rs_ij = sp_potential_minimum_position(p.rep@[i], p.att@[i]).sp_plus(
        sp_potential_minimum_position(p.rep@[j], p.att@[j]),
    ).sp_times(half);
    let d_ij = d[i].sp_plus(d[j]).sp_times(half);
    let q_ij = q[i].sp_plus(q[j]).sp_times(half);
    x[i].sp_times(x[j]).sp_times(
        sp_closure_term(eta_a[i]@[j]).sp_times(
            sp_powi(q_ij, 3).sp_neg().sp_plus(sp_powi(rs_ij.sp_times(p.sigma_ij@[i]@[j]), 3)),
        ).sp_minus(
            sp_closure_term(eta_b[i]@[j]).sp_times(
                sp_powi(d_ij, 3).sp_neg().sp_plus(sp_powi(rs_ij.sp_times(p.sigma_ij@[i]@[j]), 3)),
            ),
        ),
    )
}

/// Mirror of [`ReferencePerturbationWCA::helmholtz_energy`].
pub open spec fn sp_ref_wca_helmholtz<S: Scalar>(
    p: UVParameters<S>,
    state: State<S>,
    d: Seq<S>,
    q: Seq<S>,
    eta_a: Seq<Vec<S>>,
    eta_b: Seq<Vec<S>>,
) -> S {
    sum_grid(
        p.n(),
        |i: int, j: int| sp_ref_wca_term(p, state.molefracs@, d, q, eta_a, eta_b, i, j),
    ).sp_neg().sp_times(sp_powi(sp_sum(state.moles@), 2)).sp_times(
        S::sp_from_ratio(2i64, 1i64),
    ).sp_div(S::sp_from_ratio(3i64, 1i64)).sp_div(state.volume).sp_times(S::sp_pi())
}

/// The reference-perturbation Helmholtz energy, over the thermal energy, at
/// the given state.  The per-component effective diameters `d`, shape
/// diameters `q` and the A- and B-form packing-fraction transforms at this
/// state are empirical correlations of the division, supplied by the caller.
pub fn reference_wca_energy<S: Scalar>(
    p: &UVParameters<S>,
    state: &State<S>,
    d: &Vec<S>,
    q: &Vec<S>,
    eta_a: &Vec<Vec<S>>,
    eta_b: &Vec<Vec<S>>,
) -> (r: S)
    requires
        p.wf(),
        state.wf(),
        state.n() == p.n(),
        d@.len() == p.n(),
        q@.len() == p.n(),
        square_matrix(eta_a@, p.n()),
        square_matrix(eta_b@, p.n()),
    ensures
        r == sp_ref_wca_helmholtz(*p, *state, d@, q@, eta_a@, eta_b@),
{
    let n = p.ncomponents;
    let ghost pn = p.n() as int;
    let half = S::from_ratio(1, 2);
    let mut a = S::zero();
    let mut i: usize = 0;
    while i < n
        invariant
            i <= n,
            n == pn,
            pn == p.n(),
            p.wf(),
            state.wf(),
            state.n() == p.n(),
            d@.len() == pn,
            q@.len() == pn,
            square_matrix(eta_a@, p.n()),
            square_matrix(eta_b@, p.n()),
            half == S::sp_from_ratio(1i64, 2i64),
            a == sum_upto(
                (i * n) as nat,
                grid_flat(
                    pn,
                    |s: int, t: int| sp_ref_wca_term(
                        *p,
                        state.molefracs@,
                        d@,
                        q@,
                        eta_a@,
                        eta_b@,
                        s,
                        t,
                    ),
                ),
            ),
        decreases n - i,
    {
        let mut j: usize = 0;
        while j < n
            invariant
                i < n,
                j <= n,
                n == pn,
                pn == p.n(),
                p.wf(),
                state.wf(),
                state.n() == p.n(),
                d@.len() == pn,
                q@.len() == pn,
                square_matrix(eta_a@, p.n()),
                square_matrix(eta_b@, p.n()),
                half == S::sp_from_ratio(1i64, 2i64),
                a == sum_upto(
                    (i * n + j) as nat,
                    grid_flat(
                        pn,
                        |s: int, t: int| sp_ref_wca_term(
                            *p,
                            state.molefracs@,
                            d@,
                            q@,
                            eta_a@,
                            eta_b@,
                            s,
                            t,
                        ),
                    ),
                ),
            decreases n - j,
        {
            let rs_ij = potential_minimum_position(p.rep[i], p.att[i]).plus(
                potential_minimum_position(p.rep[j], p.att[j]),
            ).times(half);
            let d_ij = d[i].plus(d[j]).times(half);
            let q_ij = q[i].plus(q[j]).times(half);
            let term = state.molefracs[i].times(state.molefracs[j]).times(
                closure_term(eta_a[i][j]).times(
                    powi(q_ij, 3).neg().plus(powi(rs_ij.times(p.sigma_ij[i][j]), 3)),
                ).minus(
                    closure_term(eta_b[i][j]).times(
                        powi(d_ij, 3).neg().plus(powi(rs_ij.times(p.sigma_ij[i][j]), 3)),
                    ),
                ),
            );
            proof {
                lemma_sum_grid_step(
                    pn,
                    i as int,
                    j as int,
                    |s: int, t: int| sp_ref_wca_term(
                        *p,
                        state.molefracs@,
                        d@,
                        q@,
                        eta_a@,
                        eta_b@,
                        s,
                        t,
                    ),
                );
            }
            a = a.plus(term);
            j = j + 1;
        }
        proof {
            lemma_sum_grid_row_end(pn, i as int);
        }
        i = i + 1;
    }
    proof {
        lemma_sum_grid_row_end(pn, pn - 1);
    }
    a.neg().times(powi(state.total_moles(), 2)).times(S::from_ratio(2, 1)).div(
        S::from_ratio(3, 1),
    ).div(state.volume).times(S::pi())
}

impl<S: Scalar> ReferencePerturbationWCA<S> {
    /// The reference-perturbation Helmholtz energy, over the thermal energy,
    /// at the given state, with the diameters and packing transforms
    /// supplied.
    pub fn helmholtz_energy(
        &self,
        state: &State<S>,
        d: &Vec<S>,
        q: &Vec<S>,
        eta_a: &Vec<Vec<S>>,
        eta_b: &Vec<Vec<S>>,
    ) -> (r: S)
        requires
            self.parameters.wf(),
            state.wf(),
            state.n() == self.parameters.n(),
            d@.len() == self.parameters.n(),
            q@.len() == self.parameters.n(),
            square_matrix(eta_a@, self.parameters.n()),
            square_matrix(eta_b@, self.parameters.n()),
        ensures
            r == sp_ref_wca_helmholtz(self.parameters, *state, d@, q@, eta_a@, eta_b@),
    {
        reference_wca_energy(&self.parameters, state, d, q, eta_a, eta_b)
    }
}

} // verus!
