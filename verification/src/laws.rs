//! General properties of the library, stated and proved over the mirrors.
//!
//! Three families: the pure-component reduction of one-fluid mixing; the
//! mixture symmetry of every contribution and of the whole scheme under a
//! split of one substance into identical pseudo-components; and the value
//! consistency of derivative-carrying evaluation — the base component of
//! every dual-valued formula equals the plain formula on the base
//! components, so attaching derivative information never alters the value.
//!
//! Each law holds exactly over any scalar satisfying the interface's
//! algebraic laws; floating-point backends satisfy them up to rounding.

use vstd::prelude::*;

use crate::attractive_perturbation_wca::{
    sp_attractive_helmholtz, sp_correlation_integral, sp_delta_b2, sp_of_att, sp_of_diameter_x,
    sp_of_energy_sum, sp_of_epsilon_k, sp_of_rep, sp_of_sigma_x, sp_of_weighted_sigma3,
    sp_residual_virial_coefficient, sp_virial_term, sp_wca_constants, sp_y_eff,
    AttractiveConstants, CorrelationRow,
};
use crate::dual::Dual;
use crate::eos::{sp_contribution_energy, Contribution, Correlations, UVTheory};
use crate::hard_sphere::{sp_closure_term, sp_hard_sphere_helmholtz, sp_zeta};
use crate::mie::{sp_boltzmann_factor, sp_mean_field_constant, sp_mie_prefactor, sp_potential_minimum_position};
use crate::parameters::{
    sp_eps_k_ij, sp_exponent_ij, sp_records_valid, sp_sigma_ij, UVParameters, UVRecord,
};
use crate::reference_perturbation_bh::{sp_ref_bh_helmholtz, sp_ref_bh_term};
use crate::reference_perturbation_wca::{sp_ref_wca_helmholtz, sp_ref_wca_term};
use crate::scalar::{grid_flat, sp_powi, sum_grid, sum_upto, Scalar};
use crate::state::{sp_sum, State};
use crate::Perturbation;

verus! {

/// The cube of a positive value is positive.
proof fn lemma_powi3_pos<S: Scalar>(a: S)
    requires
        S::sp_zero().sp_lt(a),
    ensures
        S::sp_zero().sp_lt(sp_powi(a, 3)),
{
    S::law_times_one(a);
    assert(sp_powi(a, 0) == S::sp_one());
    assert(sp_powi(a, 1) == a.sp_times(S::sp_one()));
    S::law_pos_times(a, a);
    assert(sp_powi(a, 2) == a.sp_times(a));
    S::law_pos_times(a, a.sp_times(a));
    assert(sp_powi(a, 3) == a.sp_times(sp_powi(a, 2)));
}

/// On the diagonal, every pairwise combination rule returns the component's
/// own value: the geometric and arithmetic means of a value with itself are
/// that value, and the size weight of the energy rule cancels.
pub proof fn lemma_diagonal_combination<S: Scalar>(rec: UVRecord<S>)
    requires
        S::sp_zero().sp_lt(rec.sigma),
        S::sp_zero().sp_lt(rec.epsilon_k),
        S::sp_zero().sp_lt(rec.att),
        rec.att.sp_lt(rec.rep),
    ensures
        sp_exponent_ij(rec.rep, rec.rep) == rec.rep,
        sp_exponent_ij(rec.att, rec.att) == rec.att,
        sp_sigma_ij(rec.sigma, rec.sigma) == rec.sigma,
        sp_eps_k_ij(rec, rec, S::sp_zero()) == rec.epsilon_k,
{
    S::law_lt_trans(S::sp_zero(), rec.att, rec.rep);
    S::law_sqrt_square(rec.rep);
    S::law_sqrt_square(rec.att);
    S::law_mean_self(rec.sigma);
    S::law_sqrt_square(rec.epsilon_k);
    lemma_powi3_pos(rec.sigma);
    S::law_sqrt_square(sp_powi(rec.sigma, 3));
    S::law_pos_regular(sp_powi(rec.sigma, 3));
    S::law_div_self(sp_powi(rec.sigma, 3));
    S::law_minus_zero(S::sp_one());
    S::law_times_one(S::sp_one());
    S::law_times_one(rec.epsilon_k);
    assert(S::sp_one().sp_times(S::sp_one()).sp_times(rec.epsilon_k) == rec.epsilon_k);
}

/// Pure-component reduction: for a single component, one-fluid mixing
/// returns exactly that component's own parameters, independent of the mole
/// amount.  The mole fraction is the mole amount over itself; the effective
/// size and diameters reduce to the cube root of the pure cubes.  That cube
/// root is not claimed to return the pure value itself: a general power is
/// not correctly rounded and its exponent one third is itself rounded, so a
/// cube-root-of-cube law would be false of the floating-point backends (see
/// the interface's documentation), and the cube-root form is the exact
/// content of the reduction.
pub proof fn lemma_pure_component_mixing<S: Scalar>(
    p: UVParameters<S>,
    records: Seq<UVRecord<S>>,
    k: Seq<Seq<S>>,
    m: S,
    d: Seq<S>,
)
    requires
        p.wf(),
        records.len() == 1,
        p.combined_from(records, k),
        k[0][0] == S::sp_zero(),
        sp_records_valid(records),
        m.sp_regular(),
        d.len() == 1,
    ensures
        sp_of_rep(p, seq![m.sp_div(m)]) == records[0].rep,
        sp_of_att(p, seq![m.sp_div(m)]) == records[0].att,
        sp_of_weighted_sigma3(p, seq![m.sp_div(m)]) == sp_powi(records[0].sigma, 3),
        sp_of_epsilon_k(p, seq![m.sp_div(m)]) == records[0].epsilon_k,
        sp_of_sigma_x(p, seq![m.sp_div(m)]) == sp_powi(records[0].sigma, 3).sp_powd(
            S::sp_from_ratio(1i64, 3i64),
        ),
        sp_of_diameter_x(p, seq![m.sp_div(m)], d) == sp_powi(
            d[0].sp_div(records[0].sigma),
            3,
        ).sp_powd(S::sp_from_ratio(1i64, 3i64)),
    {
    let x = seq![m.sp_div(m)];
    S::law_div_self(m);
    assert(x[0] == S::sp_one());
    lemma_diagonal_combination(records[0]);
    let one = S::sp_one();
    S::law_times_one(one);
    assert(one.sp_times(one) == one);

    let sigma_cubed = sp_powi(records[0].sigma, 3);
    lemma_powi3_pos(records[0].sigma);
    S::law_pos_regular(sigma_cubed);

    // each grid sum over one component is the additive identity plus the
    // single diagonal term
    let frep = |i: int, j: int| x[i].sp_times(x[j]).sp_times(p.rep_ij@[i]@[j]);
    assert(sum_upto(0nat, grid_flat(1, frep)) == S::sp_zero());
    assert(grid_flat(1, frep)(0) == frep(0, 0));
    assert(sp_of_rep(p, x) == S::sp_zero().sp_plus(frep(0, 0)));
    S::law_times_one(p.rep_ij@[0]@[0]);
    S::law_plus_zero(records[0].rep);
    assert(sp_of_rep(p, x) == records[0].rep);

    let fatt = |i: int, j: int| x[i].sp_times(x[j]).sp_times(p.att_ij@[i]@[j]);
    assert(sum_upto(0nat, grid_flat(1, fatt)) == S::sp_zero());
    assert(grid_flat(1, fatt)(0) == fatt(0, 0));
    assert(sp_of_att(p, x) == S::sp_zero().sp_plus(fatt(0, 0)));
    S::law_times_one(p.att_ij@[0]@[0]);
    S::law_plus_zero(records[0].att);
    assert(sp_of_att(p, x) == records[0].att);

    let fsig = |i: int, j: int| x[i].sp_times(x[j]).sp_times(sp_powi(p.sigma_ij@[i]@[j], 3));
    assert(sum_upto(0nat, grid_flat(1, fsig)) == S::sp_zero());
    assert(grid_flat(1, fsig)(0) == fsig(0, 0));
    assert(sp_of_weighted_sigma3(p, x) == S::sp_zero().sp_plus(fsig(0, 0)));
    assert(p.sigma_ij@[0]@[0] == records[0].sigma);
    S::law_times_one(sigma_cubed);
    S::law_plus_zero(sigma_cubed);
    assert(sp_of_weighted_sigma3(p, x) == sigma_cubed);

    let fen = |i: int, j: int|
        x[i].sp_times(x[j]).sp_times(sp_powi(p.sigma_ij@[i]@[j], 3)).sp_times(p.eps_k_ij@[i]@[j]);
    assert(sum_upto(0nat, grid_flat(1, fen)) == S::sp_zero());
    assert(grid_flat(1, fen)(0) == fen(0, 0));
    assert(sp_of_energy_sum(p, x) == S::sp_zero().sp_plus(fen(0, 0)));
    assert(p.eps_k_ij@[0]@[0] == records[0].epsilon_k);
    S::law_plus_zero(sigma_cubed.sp_times(records[0].epsilon_k));
    assert(sp_of_energy_sum(p, x) == sigma_cubed.sp_times(records[0].epsilon_k));
    S::law_times_div_cancel(sigma_cubed, records[0].epsilon_k);
    assert(sp_of_epsilon_k(p, x) == records[0].epsilon_k);

    // the cube-mean aggregates collapse to the single cube
    let gs = |i: int| x[i].sp_times(sp_powi(p.sigma@[i], 3));
    assert(sum_upto(0nat, gs) == S::sp_zero());
    assert(sum_upto(1nat, gs) == S::sp_zero().sp_plus(gs(0)));
    S::law_times_one(sigma_cubed);
    S::law_plus_zero(sigma_cubed);
    assert(sum_upto(1nat, gs) == sigma_cubed);

    let gd = |i: int| x[i].sp_times(sp_powi(d[i].sp_div(p.sigma@[i]), 3));
    assert(sum_upto(0nat, gd) == S::sp_zero());
    assert(sum_upto(1nat, gd) == S::sp_zero().sp_plus(gd(0)));
    S::law_times_one(sp_powi(d[0].sp_div(records[0].sigma), 3));
    S::law_plus_zero(sp_powi(d[0].sp_div(records[0].sigma), 3));
    assert(sum_upto(1nat, gd) == sp_powi(d[0].sp_div(records[0].sigma), 3));
}

/// The base components of a sequence of dual values.
pub open spec fn re_seq<S: Scalar>(v: Seq<Dual<S>>) -> Seq<S> {
    v.map_values(|a: Dual<S>| a.re)
}

/// The base components of a pairwise matrix of dual values, row by row.
pub open spec fn re_matrix_of<S: Scalar>(m: Seq<Vec<Dual<S>>>, r: Seq<Vec<S>>) -> bool {
    &&& m.len() == r.len()
    &&& (forall|i: int| 0 <= i < m.len() ==> #[trigger] r[i]@ == re_seq(m[i]@))
}

/// A plain parameter set holds the base components of a dual one.
pub open spec fn re_params<S: Scalar>(pd: UVParameters<Dual<S>>, p: UVParameters<S>) -> bool {
    &&& p.rep@ == re_seq(pd.rep@)
    &&& p.att@ == re_seq(pd.att@)
    &&& p.sigma@ == re_seq(pd.sigma@)
    &&& p.epsilon_k@ == re_seq(pd.epsilon_k@)
    &&& re_matrix_of(pd.rep_ij@, p.rep_ij@)
    &&& re_matrix_of(pd.att_ij@, p.att_ij@)
    &&& re_matrix_of(pd.sigma_ij@, p.sigma_ij@)
    &&& re_matrix_of(pd.eps_k_ij@, p.eps_k_ij@)
}

/// A plain state holds the base components of a dual one.
pub open spec fn re_state<S: Scalar>(sd: State<Dual<S>>, s: State<S>) -> bool {
    &&& s.temperature == sd.temperature.re
    &&& s.volume == sd.volume.re
    &&& s.moles@ == re_seq(sd.moles@)
    &&& s.partial_density@ == re_seq(sd.partial_density@)
    &&& s.molefracs@ == re_seq(sd.molefracs@)
}

/// A plain correlation row holds the base components of a dual one.
pub open spec fn re_row<S: Scalar>(rd: CorrelationRow<Dual<S>>, r: CorrelationRow<S>) -> bool {
    &&& r.k0 == rd.k0.re
    &&& r.k1 == rd.k1.re
    &&& r.k2 == rd.k2.re
    &&& r.k3 == rd.k3.re
    &&& r.k4 == rd.k4.re
    &&& r.k5 == rd.k5.re
}

/// A plain attractive constant set holds the base components of a dual one.
pub open spec fn re_constants<S: Scalar>(
    kd: AttractiveConstants<Dual<S>>,
    k: AttractiveConstants<S>,
) -> bool {
    &&& re_row(kd.c1, k.c1)
    &&& re_row(kd.c2, k.c2)
    &&& re_row(kd.c3, k.c3)
    &&& re_row(kd.c4, k.c4)
    &&& re_row(kd.c5, k.c5)
    &&& re_row(kd.c6, k.c6)
    &&& k.u0 == kd.u0.re
    &&& k.u1 == kd.u1.re
    &&& k.u2 == kd.u2.re
    &&& k.v10 == kd.v10.re
    &&& k.v11 == kd.v11.re
    &&& k.v20 == kd.v20.re
    &&& k.v21 == kd.v21.re
    &&& k.v30 == kd.v30.re
    &&& k.v31 == kd.v31.re
    &&& k.e1 == kd.e1.re
    &&& k.e2 == kd.e2.re
    &&& k.e3 == kd.e3.re
}

/// The compiled-in Weeks-Chandler-Andersen constant set of the dual scalar
/// holds the plain set in its base components.
pub proof fn lemma_wca_constants_re<S: Scalar>()
    ensures
        re_constants(sp_wca_constants::<Dual<S>>(), sp_wca_constants::<S>()),
{
}

/// The base component of a left-to-right sum is the sum of the base
/// components.
pub proof fn lemma_sum_re<S: Scalar>(n: nat, fd: spec_fn(int) -> Dual<S>, fs: spec_fn(int) -> S)
    requires
        forall|k: int| 0 <= k < n ==> (#[trigger] fd(k)).re == fs(k),
    ensures
        sum_upto(n, fd).re == sum_upto(n, fs),
    decreases n,
{
    if n > 0 {
        lemma_sum_re((n - 1) as nat, fd, fs);
    }
}

/// The base component of an integer power is the integer power of the base
/// component.
pub proof fn lemma_powi_re<S: Scalar>(a: Dual<S>, n: nat)
    ensures
        sp_powi(a, n).re == sp_powi(a.re, n),
    decreases n,
{
    if n > 0 {
        lemma_powi_re(a, (n - 1) as nat);
    }
}

/// The base component of a pairwise grid sum is the grid sum of the base
/// components of the terms.
pub proof fn lemma_sum_grid_re<S: Scalar>(
    n: nat,
    fd: spec_fn(int, int) -> Dual<S>,
    fs: spec_fn(int, int) -> S,
)
    requires
        forall|i: int, j: int| 0 <= i < n && 0 <= j < n ==> (#[trigger] fd(i, j)).re == fs(i, j),
    ensures
        sum_grid(n, fd).re == sum_grid(n, fs),
{
    let ni = n as int;
    assert forall|k: int| 0 <= k < n * n implies (#[trigger] grid_flat(ni, fd)(k)).re
        == grid_flat(ni, fs)(k) by {
        vstd::arithmetic::div_mod::lemma_fundamental_div_mod(k, ni);
        vstd::arithmetic::div_mod::lemma_mod_bound(k, ni);
        let kq = k / ni;
        let kr = k % ni;
        assert(kq < ni && 0 <= kq) by (nonlinear_arith)
            requires
                0 < ni,
                ni * kq + kr == k,
                0 <= k < ni * ni,
                0 <= kr < ni,
        ;
    }
    lemma_sum_re(n * n, grid_flat(ni, fd), grid_flat(ni, fs));
}

/// Value consistency of the one-fluid mixing aggregates.
pub proof fn lemma_one_fluid_re<S: Scalar>(
    pd: UVParameters<Dual<S>>,
    p: UVParameters<S>,
    xd: Seq<Dual<S>>,
    x: Seq<S>,
    dd: Seq<Dual<S>>,
    d: Seq<S>,
)
    requires
        pd.wf(),
        re_params(pd, p),
        x == re_seq(xd),
        xd.len() == pd.n(),
        d == re_seq(dd),
        dd.len() == pd.n(),
    ensures
        sp_of_rep(pd, xd).re == sp_of_rep(p, x),
        sp_of_att(pd, xd).re == sp_of_att(p, x),
        sp_of_weighted_sigma3(pd, xd).re == sp_of_weighted_sigma3(p, x),
        sp_of_energy_sum(pd, xd).re == sp_of_energy_sum(p, x),
        sp_of_epsilon_k(pd, xd).re == sp_of_epsilon_k(p, x),
        sp_of_sigma_x(pd, xd).re == sp_of_sigma_x(p, x),
        sp_of_diameter_x(pd, xd, dd).re == sp_of_diameter_x(p, x, d),
{
    assert(p.n() == pd.n());
    let n = pd.n();
    assert forall|i: int, j: int| 0 <= i < n && 0 <= j < n implies (#[trigger] xd[i].sp_times(
        xd[j],
    ).sp_times(pd.rep_ij@[i]@[j])).re == x[i].sp_times(x[j]).sp_times(p.rep_ij@[i]@[j]) by {}
    lemma_sum_grid_re(
        n,
        |i: int, j: int| xd[i].sp_times(xd[j]).sp_times(pd.rep_ij@[i]@[j]),
        |i: int, j: int| x[i].sp_times(x[j]).sp_times(p.rep_ij@[i]@[j]),
    );
    assert forall|i: int, j: int| 0 <= i < n && 0 <= j < n implies (#[trigger] xd[i].sp_times(
        xd[j],
    ).sp_times(pd.att_ij@[i]@[j])).re == x[i].sp_times(x[j]).sp_times(p.att_ij@[i]@[j]) by {}
    lemma_sum_grid_re(
        n,
        |i: int, j: int| xd[i].sp_times(xd[j]).sp_times(pd.att_ij@[i]@[j]),
        |i: int, j: int| x[i].sp_times(x[j]).sp_times(p.att_ij@[i]@[j]),
    );
    assert forall|i: int, j: int| 0 <= i < n && 0 <= j < n implies (#[trigger] xd[i].sp_times(
        xd[j],
    ).sp_times(sp_powi(pd.sigma_ij@[i]@[j], 3))).re == x[i].sp_times(x[j]).sp_times(
        sp_powi(p.sigma_ij@[i]@[j], 3),
    ) by {
        lemma_powi_re(pd.sigma_ij@[i]@[j], 3);
    }
    lemma_sum_grid_re(
        n,
        |i: int, j: int| xd[i].sp_times(xd[j]).sp_times(sp_powi(pd.sigma_ij@[i]@[j], 3)),
        |i: int, j: int| x[i].sp_times(x[j]).sp_times(sp_powi(p.sigma_ij@[i]@[j], 3)),
    );
    assert forall|i: int, j: int| 0 <= i < n && 0 <= j < n implies (#[trigger] xd[i].sp_times(
        xd[j],
    ).sp_times(sp_powi(pd.sigma_ij@[i]@[j], 3)).sp_times(pd.eps_k_ij@[i]@[j])).re == x[i].sp_times(
        x[j],
    ).sp_times(sp_powi(p.sigma_ij@[i]@[j], 3)).sp_times(p.eps_k_ij@[i]@[j]) by {
        lemma_powi_re(pd.sigma_ij@[i]@[j], 3);
    }
    lemma_sum_grid_re(
        n,
        |i: int, j: int|
            xd[i].sp_times(xd[j]).sp_times(sp_powi(pd.sigma_ij@[i]@[j], 3)).sp_times(
                pd.eps_k_ij@[i]@[j],
            ),
        |i: int, j: int|
            x[i].sp_times(x[j]).sp_times(sp_powi(p.sigma_ij@[i]@[j], 3)).sp_times(
                p.eps_k_ij@[i]@[j],
            ),
    );
    assert forall|i: int| 0 <= i < n implies (#[trigger] xd[i].sp_times(
        sp_powi(pd.sigma@[i], 3),
    )).re == x[i].sp_times(sp_powi(p.sigma@[i], 3)) by {
        lemma_powi_re(pd.sigma@[i], 3);
    }
    lemma_sum_re(
        n,
        |i: int| xd[i].sp_times(sp_powi(pd.sigma@[i], 3)),
        |i: int| x[i].sp_times(sp_powi(p.sigma@[i], 3)),
    );
    assert forall|i: int| 0 <= i < n implies (#[trigger] xd[i].sp_times(
        sp_powi(dd[i].sp_div(pd.sigma@[i]), 3),
    )).re == x[i].sp_times(sp_powi(d[i].sp_div(p.sigma@[i]), 3)) by {
        lemma_powi_re(dd[i].sp_div(pd.sigma@[i]), 3);
    }
    lemma_sum_re(
        n,
        |i: int| xd[i].sp_times(sp_powi(dd[i].sp_div(pd.sigma@[i]), 3)),
        |i: int| x[i].sp_times(sp_powi(d[i].sp_div(p.sigma@[i]), 3)),
    );
}

/// Value consistency of the pairwise second-virial deviation and its sum.
pub proof fn lemma_virial_re<S: Scalar>(
    pd: UVParameters<Dual<S>>,
    p: UVParameters<S>,
    xd: Seq<Dual<S>>,
    x: Seq<S>,
    td: Dual<S>,
    qd: Seq<Dual<S>>,
    q: Seq<S>,
    kd: AttractiveConstants<Dual<S>>,
    k: AttractiveConstants<S>,
)
    requires
        pd.wf(),
        re_params(pd, p),
        x == re_seq(xd),
        xd.len() == pd.n(),
        q == re_seq(qd),
        qd.len() == pd.n(),
        re_constants(kd, k),
    ensures
        sp_residual_virial_coefficient(pd, xd, td, qd, kd).re == sp_residual_virial_coefficient(
            p,
            x,
            td.re,
            q,
            k,
        ),
{
    let n = pd.n();
    assert forall|i: int, j: int| 0 <= i < n && 0 <= j < n implies (#[trigger] sp_virial_term(
        pd,
        xd,
        td,
        qd,
        kd,
        i,
        j,
    )).re == sp_virial_term(p, x, td.re, q, k, i, j) by {
        lemma_powi_re(pd.sigma_ij@[i]@[j], 3);
        let q_ij_d = qd[i].sp_div(pd.sigma@[i]).sp_plus(qd[j].sp_div(pd.sigma@[j])).sp_times(
            Dual::<S>::sp_from_ratio(1i64, 2i64),
        );
        lemma_delta_b2_re(
            td.sp_div(pd.eps_k_ij@[i]@[j]),
            pd.rep_ij@[i]@[j],
            pd.att_ij@[i]@[j],
            q_ij_d,
            kd,
            k,
        );
    }
    lemma_sum_grid_re(
        n,
        |i: int, j: int| sp_virial_term(pd, xd, td, qd, kd, i, j),
        |i: int, j: int| sp_virial_term(p, x, td.re, q, k, i, j),
    );
}

/// Value consistency of the pairwise second-virial deviation.
pub proof fn lemma_delta_b2_re<S: Scalar>(
    t: Dual<S>,
    rep: Dual<S>,
    att: Dual<S>,
    q: Dual<S>,
    kd: AttractiveConstants<Dual<S>>,
    k: AttractiveConstants<S>,
)
    requires
        re_constants(kd, k),
    ensures
        sp_delta_b2(t, rep, att, q, kd).re == sp_delta_b2(t.re, rep.re, att.re, q.re, k),
{
    let rm = sp_potential_minimum_position(rep, att);
    lemma_powi_re(rm, 3);
    lemma_powi_re(q, 3);
    lemma_powi_re(Dual::<S>::sp_from_ratio(5i64, 1i64), 3);
    lemma_y_eff_re(t, rep, att, kd, k);
}

/// Value consistency of the effective inverse-temperature correlation.
pub proof fn lemma_y_eff_re<S: Scalar>(
    t: Dual<S>,
    rep: Dual<S>,
    att: Dual<S>,
    kd: AttractiveConstants<Dual<S>>,
    k: AttractiveConstants<S>,
)
    requires
        re_constants(kd, k),
    ensures
        sp_y_eff(t, rep, att, kd).re == sp_y_eff(t.re, rep.re, att.re, k),
{
    let rs = sp_potential_minimum_position(rep, att);
    lemma_powi_re(Dual::<S>::sp_from_ratio(5i64, 1i64), 3);
    lemma_powi_re(rs, 3);
}

/// Value consistency of the rational-correction coefficients and integral.
pub proof fn lemma_correlation_integral_re<S: Scalar>(
    rho: Dual<S>,
    mfc: Dual<S>,
    rep: Dual<S>,
    att: Dual<S>,
    d: Dual<S>,
    q: Dual<S>,
    rm: Dual<S>,
    kd: AttractiveConstants<Dual<S>>,
    k: AttractiveConstants<S>,
)
    requires
        re_constants(kd, k),
    ensures
        sp_correlation_integral(rho, mfc, rep, att, d, q, rm, kd).re == sp_correlation_integral(
            rho.re,
            mfc.re,
            rep.re,
            att.re,
            d.re,
            q.re,
            rm.re,
            k,
        ),
{
    lemma_powi_re(q, 3);
    lemma_powi_re(rm, 3);
    lemma_powi_re(rho, 2);
    lemma_powi_re(rho, 3);
    lemma_powi_re(rep.sp_recip(), 2);
}

/// Value consistency of the full attractive-perturbation term: evaluating
/// with a derivative-carrying encoding never alters the base value.
pub proof fn lemma_attractive_re<S: Scalar>(
    pd: UVParameters<Dual<S>>,
    p: UVParameters<S>,
    sd: State<Dual<S>>,
    s: State<S>,
    dd: Seq<Dual<S>>,
    d: Seq<S>,
    qd: Seq<Dual<S>>,
    q: Seq<S>,
    kd: AttractiveConstants<Dual<S>>,
    k: AttractiveConstants<S>,
)
    requires
        pd.wf(),
        sd.wf(),
        sd.n() == pd.n(),
        re_params(pd, p),
        re_state(sd, s),
        d == re_seq(dd),
        dd.len() == pd.n(),
        q == re_seq(qd),
        qd.len() == pd.n(),
        re_constants(kd, k),
    ensures
        sp_attractive_helmholtz(pd, sd, dd, qd, kd).re == sp_attractive_helmholtz(p, s, d, q, k),
{
    let xd = sd.molefracs@;
    let x = s.molefracs@;
    lemma_sum_re(
        sd.partial_density@.len(),
        |i: int| sd.partial_density@[i],
        |i: int| s.partial_density@[i],
    );
    lemma_sum_re(sd.moles@.len(), |i: int| sd.moles@[i], |i: int| s.moles@[i]);
    lemma_one_fluid_re(pd, p, xd, x, dd, d);
    lemma_one_fluid_re(pd, p, xd, x, qd, q);
    let sigma_x = sp_of_sigma_x(pd, xd);
    lemma_powi_re(sigma_x, 3);
    let rep_x = sp_of_rep(pd, xd);
    let att_x = sp_of_att(pd, xd);
    let rm_x = sp_potential_minimum_position(rep_x, att_x);
    lemma_powi_re(rm_x, 3);
    let q_x = sp_of_diameter_x(pd, xd, qd);
    lemma_powi_re(q_x, 3);
    let density = sp_sum(sd.partial_density@);
    let sig3 = sum_upto(pd.n(), |i: int| xd[i].sp_times(sp_powi(pd.sigma@[i], 3)));
    assert forall|i: int| 0 <= i < pd.n() implies (#[trigger] xd[i].sp_times(
        sp_powi(pd.sigma@[i], 3),
    )).re == x[i].sp_times(sp_powi(p.sigma@[i], 3)) by {
        lemma_powi_re(pd.sigma@[i], 3);
    }
    lemma_sum_re(
        pd.n(),
        |i: int| xd[i].sp_times(sp_powi(pd.sigma@[i], 3)),
        |i: int| x[i].sp_times(sp_powi(p.sigma@[i], 3)),
    );
    lemma_powi_re(density.sp_times(sig3), 2);
    lemma_correlation_integral_re(
        density.sp_times(sp_powi(sigma_x, 3)),
        sp_mean_field_constant(rep_x, att_x, rm_x),
        rep_x,
        att_x,
        sp_of_diameter_x(pd, xd, dd),
        q_x,
        rm_x,
        kd,
        k,
    );
    lemma_virial_re(pd, p, xd, x, sd.temperature, qd, q, kd, k);
}

/// Value consistency of the hard-sphere term.
pub proof fn lemma_hard_sphere_re<S: Scalar>(
    sd: State<Dual<S>>,
    s: State<S>,
    dd: Seq<Dual<S>>,
    d: Seq<S>,
)
    requires
        sd.wf(),
        re_state(sd, s),
        d == re_seq(dd),
        dd.len() == sd.n(),
    ensures
        sp_hard_sphere_helmholtz(sd, dd).re == sp_hard_sphere_helmholtz(s, d),
{
    lemma_zeta_re(sd, s, dd, d, 0);
    lemma_zeta_re(sd, s, dd, d, 1);
    lemma_zeta_re(sd, s, dd, d, 2);
    lemma_zeta_re(sd, s, dd, d, 3);
    let z2 = sp_zeta(sd.partial_density@, dd, 2);
    let z3 = sp_zeta(sd.partial_density@, dd, 3);
    lemma_powi_re(z2, 3);
    lemma_powi_re(z3, 2);
    lemma_powi_re(Dual::<S>::sp_one().sp_minus(z3), 2);
}

/// Value consistency of a diameter moment.
pub proof fn lemma_zeta_re<S: Scalar>(
    sd: State<Dual<S>>,
    s: State<S>,
    dd: Seq<Dual<S>>,
    d: Seq<S>,
    k: nat,
)
    requires
        sd.wf(),
        re_state(sd, s),
        d == re_seq(dd),
        dd.len() == sd.n(),
    ensures
        sp_zeta(sd.partial_density@, dd, k).re == sp_zeta(s.partial_density@, d, k),
{
    assert forall|i: int| 0 <= i < sd.partial_density@.len() implies (
    #[trigger] sd.partial_density@[i].sp_times(sp_powi(dd[i], k))).re
        == s.partial_density@[i].sp_times(sp_powi(d[i], k)) by {
        lemma_powi_re(dd[i], k);
    }
    lemma_sum_re(
        sd.partial_density@.len(),
        |i: int| sd.partial_density@[i].sp_times(sp_powi(dd[i], k)),
        |i: int| s.partial_density@[i].sp_times(sp_powi(d[i], k)),
    );
}

/// Value consistency of the Barker-Henderson reference perturbation.
pub proof fn lemma_ref_bh_re<S: Scalar>(
    pd: UVParameters<Dual<S>>,
    p: UVParameters<S>,
    sd: State<Dual<S>>,
    s: State<S>,
    dd: Seq<Dual<S>>,
    d: Seq<S>,
    ead: Seq<Vec<Dual<S>>>,
    ea: Seq<Vec<S>>,
    ebd: Seq<Vec<Dual<S>>>,
    eb: Seq<Vec<S>>,
)
    requires
        pd.wf(),
        sd.wf(),
        sd.n() == pd.n(),
        re_params(pd, p),
        re_state(sd, s),
        d == re_seq(dd),
        dd.len() == pd.n(),
        re_matrix_of(ead, ea),
        ead.len() == pd.n(),
        forall|i: int| 0 <= i < ead.len() ==> (#[trigger] ead[i]@).len() == pd.n(),
        re_matrix_of(ebd, eb),
        ebd.len() == pd.n(),
        forall|i: int| 0 <= i < ebd.len() ==> (#[trigger] ebd[i]@).len() == pd.n(),
    ensures
        sp_ref_bh_helmholtz(pd, sd, dd, ead, ebd).re == sp_ref_bh_helmholtz(p, s, d, ea, eb),
{
    let n = pd.n();
    let xd = sd.molefracs@;
    let x = s.molefracs@;
    assert forall|i: int, j: int| 0 <= i < n && 0 <= j < n implies (#[trigger] sp_ref_bh_term(
        pd,
        xd,
        dd,
        ead,
        ebd,
        i,
        j,
    )).re == sp_ref_bh_term(p, x, d, ea, eb, i, j) by {
        lemma_closure_re(ead[i]@[j]);
        lemma_closure_re(ebd[i]@[j]);
        lemma_powi_re(dd[i].sp_plus(dd[j]).sp_times(Dual::<S>::sp_from_ratio(1i64, 2i64)), 3);
        lemma_powi_re(pd.sigma_ij@[i]@[j], 3);
    }
    lemma_sum_grid_re(
        n,
        |i: int, j: int| sp_ref_bh_term(pd, xd, dd, ead, ebd, i, j),
        |i: int, j: int| sp_ref_bh_term(p, x, d, ea, eb, i, j),
    );
    lemma_sum_re(sd.moles@.len(), |i: int| sd.moles@[i], |i: int| s.moles@[i]);
    lemma_powi_re(sp_sum(sd.moles@), 2);
}

/// Value consistency of the closure expression.
pub proof fn lemma_closure_re<S: Scalar>(eta: Dual<S>)
    ensures
        sp_closure_term(eta).re == sp_closure_term(eta.re),
{
    lemma_powi_re(eta.sp_neg().sp_plus(Dual::<S>::sp_one()), 3);
}

/// Value consistency of the Weeks-Chandler-Andersen reference perturbation.
pub proof fn lemma_ref_wca_re<S: Scalar>(
    pd: UVParameters<Dual<S>>,
    p: UVParameters<S>,
    sd: State<Dual<S>>,
    s: State<S>,
    dd: Seq<Dual<S>>,
    d: Seq<S>,
    qd: Seq<Dual<S>>,
    q: Seq<S>,
    ead: Seq<Vec<Dual<S>>>,
    ea: Seq<Vec<S>>,
    ebd: Seq<Vec<Dual<S>>>,
    eb: Seq<Vec<S>>,
)
    requires
        pd.wf(),
        sd.wf(),
        sd.n() == pd.n(),
        re_params(pd, p),
        re_state(sd, s),
        d == re_seq(dd),
        dd.len() == pd.n(),
        q == re_seq(qd),
        qd.len() == pd.n(),
        re_matrix_of(ead, ea),
        ead.len() == pd.n(),
        forall|i: int| 0 <= i < ead.len() ==> (#[trigger] ead[i]@).len() == pd.n(),
        re_matrix_of(ebd, eb),
        ebd.len() == pd.n(),
        forall|i: int| 0 <= i < ebd.len() ==> (#[trigger] ebd[i]@).len() == pd.n(),
    ensures
        sp_ref_wca_helmholtz(pd, sd, dd, qd, ead, ebd).re == sp_ref_wca_helmholtz(
            p,
            s,
            d,
            q,
            ea,
            eb,
        ),
{
    let n = pd.n();
    let xd = sd.molefracs@;
    let x = s.molefracs@;
    let half = Dual::<S>::sp_from_ratio(1i64, 2i64);
    assert forall|i: int, j: int| 0 <= i < n && 0 <= j < n implies (#[trigger] sp_ref_wca_term(
        pd,
        xd,
        dd,
        qd,
        ead,
        ebd,
        i,
        j,
    )).re == sp_ref_wca_term(p, x, d, q, ea, eb, i, j) by {
        lemma_closure_re(ead[i]@[j]);
        lemma_closure_re(ebd[i]@[j]);
        let rs_ij = sp_potential_minimum_position(pd.rep@[i], pd.att@[i]).sp_plus(
            sp_potential_minimum_position(pd.rep@[j], pd.att@[j]),
        ).sp_times(half);
        lemma_powi_re(dd[i].sp_plus(dd[j]).sp_times(half), 3);
        lemma_powi_re(qd[i].sp_plus(qd[j]).sp_times(half), 3);
        lemma_powi_re(rs_ij.sp_times(pd.sigma_ij@[i]@[j]), 3);
    }
    lemma_sum_grid_re(
        n,
        |i: int, j: int| sp_ref_wca_term(pd, xd, dd, qd, ead, ebd, i, j),
        |i: int, j: int| sp_ref_wca_term(p, x, d, q, ea, eb, i, j),
    );
    lemma_sum_re(sd.moles@.len(), |i: int| sd.moles@[i], |i: int| s.moles@[i]);
    lemma_powi_re(sp_sum(sd.moles@), 2);
}

/// The correlation values of a plain evaluation hold the base components of
/// a dual one.
pub open spec fn re_correlations<S: Scalar>(cd: Correlations<Dual<S>>, c: Correlations<S>) -> bool {
    &&& c.d@ == re_seq(cd.d@)
    &&& c.q@ == re_seq(cd.q@)
    &&& re_matrix_of(cd.eta_a@, c.eta_a@)
    &&& re_matrix_of(cd.eta_b@, c.eta_b@)
    &&& re_constants(cd.attractive_bh, c.attractive_bh)
}

/// Derivative consistency of the whole scheme: the total residual Helmholtz
/// energy of a derivative-carrying evaluation has, as its base value, the
/// plain evaluation at the base values of every input.  A derivative-free
/// dual encoding therefore reproduces the plain result exactly.
pub proof fn lemma_scheme_value_consistency<S: Scalar>(
    ud: UVTheory<Dual<S>>,
    u: UVTheory<S>,
    sd: State<Dual<S>>,
    s: State<S>,
    cd: Correlations<Dual<S>>,
    c: Correlations<S>,
)
    requires
        ud.wf(),
        u.wf(),
        sd.wf(),
        sd.n() == ud.parameters.n(),
        u.options.perturbation == ud.options.perturbation,
        re_params(ud.parameters, u.parameters),
        re_state(sd, s),
        re_correlations(cd, c),
        cd.wf(ud.parameters.n()),
    ensures
        ud.sp_residual_helmholtz(sd, cd).re == u.sp_residual_helmholtz(s, c),
{
    assert forall|m: int| 0 <= m < ud.contributions@.len() implies (
    #[trigger] sp_contribution_energy(ud.contributions@[m], ud.parameters, sd, cd)).re
        == sp_contribution_energy(u.contributions@[m], u.parameters, s, c) by {
        assert(u.contributions@[m] == ud.contributions@[m]);
        match ud.contributions@[m] {
            Contribution::HardSphere => {
                lemma_hard_sphere_re(sd, s, cd.d@, c.d@);
            },
            Contribution::ReferencePerturbationBh => {
                lemma_ref_bh_re(
                    ud.parameters,
                    u.parameters,
                    sd,
                    s,
                    cd.d@,
                    c.d@,
                    cd.eta_a@,
                    c.eta_a@,
                    cd.eta_b@,
                    c.eta_b@,
                );
            },
            Contribution::ReferencePerturbationWca => {
                lemma_ref_wca_re(
                    ud.parameters,
                    u.parameters,
                    sd,
                    s,
                    cd.d@,
                    c.d@,
                    cd.q@,
                    c.q@,
                    cd.eta_a@,
                    c.eta_a@,
                    cd.eta_b@,
                    c.eta_b@,
                );
            },
            Contribution::AttractivePerturbationBh => {
                lemma_attractive_re(
                    ud.parameters,
                    u.parameters,
                    sd,
                    s,
                    cd.d@,
                    c.d@,
                    cd.q@,
                    c.q@,
                    cd.attractive_bh,
                    c.attractive_bh,
                );
            },
            Contribution::AttractivePerturbationWca => {
                lemma_wca_constants_re::<S>();
                lemma_attractive_re(
                    ud.parameters,
                    u.parameters,
                    sd,
                    s,
                    cd.d@,
                    c.d@,
                    cd.q@,
                    c.q@,
                    sp_wca_constants::<Dual<S>>(),
                    sp_wca_constants::<S>(),
                );
            },
        }
    }
    lemma_sum_re(
        ud.contributions@.len(),
        |m: int| sp_contribution_energy(ud.contributions@[m], ud.parameters, sd, cd),
        |m: int| sp_contribution_energy(u.contributions@[m], u.parameters, s, c),
    );
}

/// A two-term sum of a common factor weighted by fractions that add to one
/// collapses to that factor.
proof fn lemma_pair_sum_collapse<S: Scalar>(x0: S, x1: S, f: spec_fn(int) -> S, v: S)
    requires
        x0.sp_plus(x1) == S::sp_one(),
        f(0) == x0.sp_times(v),
        f(1) == x1.sp_times(v),
    ensures
        sum_upto(2, f) == v,
{
    assert(sum_upto(0nat, f) == S::sp_zero());
    assert(sum_upto(1nat, f) == S::sp_zero().sp_plus(f(0)));
    assert(sum_upto(2nat, f) == sum_upto(1nat, f).sp_plus(f(1)));
    S::law_plus_zero(x0.sp_times(v));
    S::law_distrib(x0, x1, v);
    S::law_times_one(v);
}

/// A pairwise sum of a common factor weighted by products of fractions that
/// add to one collapses to that factor.
proof fn lemma_pair_grid_collapse<S: Scalar>(x0: S, x1: S, f: spec_fn(int, int) -> S, v: S)
    requires
        x0.sp_plus(x1) == S::sp_one(),
        f(0, 0) == x0.sp_times(x0).sp_times(v),
        f(0, 1) == x0.sp_times(x1).sp_times(v),
        f(1, 0) == x1.sp_times(x0).sp_times(v),
        f(1, 1) == x1.sp_times(x1).sp_times(v),
    ensures
        sum_grid(2, f) == v,
{
    let g = grid_flat(2, f);
    assert(g(0) == f(0, 0) && g(1) == f(0, 1) && g(2) == f(1, 0) && g(3) == f(1, 1));
    assert(sum_upto(0nat, g) == S::sp_zero());
    assert(sum_upto(1nat, g) == S::sp_zero().sp_plus(g(0)));
    assert(sum_upto(2nat, g) == sum_upto(1nat, g).sp_plus(g(1)));
    assert(sum_upto(3nat, g) == sum_upto(2nat, g).sp_plus(g(2)));
    assert(sum_upto(4nat, g) == sum_upto(3nat, g).sp_plus(g(3)));
    S::law_plus_zero(f(0, 0));
    // the first row: (x0 x0 + x0 x1) v = x0 v
    S::law_distrib(x0.sp_times(x0), x0.sp_times(x1), v);
    S::law_distrib(x0, x1, x0);
    S::law_times_one(x0);
    assert(f(0, 0).sp_plus(f(0, 1)) == x0.sp_times(v));
    // the second row joins: x0 v + (x1 x0 + x1 x1) v = (x0 + x1) v
    S::law_plus_assoc(x0.sp_times(v), f(1, 0), f(1, 1));
    S::law_distrib(x1.sp_times(x0), x1.sp_times(x1), v);
    S::law_distrib(x0, x1, x1);
    S::law_times_one(x1);
    assert(f(1, 0).sp_plus(f(1, 1)) == x1.sp_times(v));
    S::law_distrib(x0, x1, v);
    S::law_times_one(v);
}

/// Mixture symmetry: splitting one substance into two identical-parameter
/// pseudo-components leaves the attractive-perturbation energy unchanged,
/// for any division of the mole amount.  The two states share temperature,
/// volume and total moles, and the supplied diameters repeat the pure
/// values, so the molar results agree as well.
pub proof fn lemma_mixture_symmetry_attractive<S: Scalar>(
    rec: UVRecord<S>,
    p_pure: UVParameters<S>,
    p_split: UVParameters<S>,
    s_pure: State<S>,
    s_split: State<S>,
    dv: S,
    qv: S,
    k: AttractiveConstants<S>,
)
    requires
        p_pure.wf(),
        p_split.wf(),
        p_pure.combined_from(seq![rec], seq![seq![S::sp_zero()]]),
        p_split.combined_from(
            seq![rec, rec],
            Seq::new(2, |i: int| Seq::new(2, |j: int| S::sp_zero())),
        ),
        sp_records_valid(seq![rec]),
        s_pure.wf(),
        s_split.wf(),
        s_pure.n() == 1,
        s_split.n() == 2,
        s_pure.temperature == s_split.temperature,
        s_pure.volume == s_split.volume,
        s_pure.moles@ == seq![s_split.moles@[0].sp_plus(s_split.moles@[1])],
        s_split.moles@[0].sp_plus(s_split.moles@[1]).sp_regular(),
    ensures
        sp_attractive_helmholtz(p_pure, s_pure, seq![dv], seq![qv], k) == sp_attractive_helmholtz(
            p_split,
            s_split,
            seq![dv, dv],
            seq![qv, qv],
            k,
        ),
{
    let records1 = seq![rec];
    let m0 = s_split.moles@[0];
    let m1 = s_split.moles@[1];
    let mm = m0.sp_plus(m1);
    assert(seq![rec][0] == rec);
    assert(S::sp_zero().sp_lt(seq![rec][0].sigma));
    assert(S::sp_zero().sp_lt(seq![rec][0].epsilon_k));
    assert(S::sp_zero().sp_lt(seq![rec][0].att));
    assert(seq![rec][0].att.sp_lt(seq![rec][0].rep));
    lemma_diagonal_combination(rec);
    // total moles and mole fractions
    assert(sum_upto(0nat, |i: int| s_split.moles@[i]) == S::sp_zero());
    assert(sum_upto(1nat, |i: int| s_split.moles@[i]) == S::sp_zero().sp_plus(m0));
    assert(sp_sum(s_split.moles@) == S::sp_zero().sp_plus(m0).sp_plus(m1));
    S::law_plus_zero(m0);
    assert(sp_sum(s_split.moles@) == mm);
    assert(sum_upto(0nat, |i: int| s_pure.moles@[i]) == S::sp_zero());
    assert(sp_sum(s_pure.moles@) == S::sp_zero().sp_plus(mm));
    S::law_plus_zero(mm);
    assert(sp_sum(s_pure.moles@) == mm);
    let x0 = m0.sp_div(mm);
    let x1 = m1.sp_div(mm);
    assert(s_split.molefracs@[0] == x0 && s_split.molefracs@[1] == x1);
    S::law_div_plus(m0, m1, mm);
    S::law_div_self(mm);
    assert(x0.sp_plus(x1) == S::sp_one());
    let x = s_split.molefracs@;
    let x_pure = s_pure.molefracs@;
    assert(x_pure =~= seq![mm.sp_div(mm)]);
    lemma_pure_component_mixing(p_pure, records1, seq![seq![S::sp_zero()]], mm, seq![dv]);
    lemma_pure_component_mixing(p_pure, records1, seq![seq![S::sp_zero()]], mm, seq![qv]);
    // densities agree
    assert(sum_upto(0nat, |i: int| s_split.partial_density@[i]) == S::sp_zero());
    assert(sum_upto(1nat, |i: int| s_split.partial_density@[i]) == S::sp_zero().sp_plus(
        m0.sp_div(s_split.volume),
    ));
    assert(sp_sum(s_split.partial_density@) == S::sp_zero().sp_plus(m0.sp_div(s_split.volume)).sp_plus(
        m1.sp_div(s_split.volume),
    ));
    S::law_plus_zero(m0.sp_div(s_split.volume));
    S::law_div_plus(m0, m1, s_split.volume);
    assert(sum_upto(0nat, |i: int| s_pure.partial_density@[i]) == S::sp_zero());
    assert(sp_sum(s_pure.partial_density@) == S::sp_zero().sp_plus(mm.sp_div(s_pure.volume)));
    S::law_plus_zero(mm.sp_div(s_pure.volume));
    assert(sp_sum(s_split.partial_density@) == sp_sum(s_pure.partial_density@));
    // the one-fluid aggregates of the split mixture collapse to the pure
    // values
    let sig3 = sp_powi(rec.sigma, 3);
    lemma_pair_grid_collapse(
        x0,
        x1,
        |i: int, j: int| x[i].sp_times(x[j]).sp_times(p_split.rep_ij@[i]@[j]),
        rec.rep,
    );
    assert(sp_of_rep(p_split, x) == rec.rep);
    lemma_pair_grid_collapse(
        x0,
        x1,
        |i: int, j: int| x[i].sp_times(x[j]).sp_times(p_split.att_ij@[i]@[j]),
        rec.att,
    );
    assert(sp_of_att(p_split, x) == rec.att);
    lemma_pair_grid_collapse(
        x0,
        x1,
        |i: int, j: int| x[i].sp_times(x[j]).sp_times(sp_powi(p_split.sigma_ij@[i]@[j], 3)),
        sig3,
    );
    assert(sp_of_weighted_sigma3(p_split, x) == sig3);
    assert forall|i: int, j: int| 0 <= i < 2 && 0 <= j < 2 implies x[i].sp_times(x[j]).sp_times(
        sp_powi(p_split.sigma_ij@[i]@[j], 3),
    ).sp_times(p_split.eps_k_ij@[i]@[j]) == x[i].sp_times(x[j]).sp_times(
        sig3.sp_times(rec.epsilon_k),
    ) by {
        S::law_times_assoc(x[i].sp_times(x[j]), sig3, rec.epsilon_k);
    }
    lemma_pair_grid_collapse(
        x0,
        x1,
        |i: int, j: int|
            x[i].sp_times(x[j]).sp_times(sp_powi(p_split.sigma_ij@[i]@[j], 3)).sp_times(
                p_split.eps_k_ij@[i]@[j],
            ),
        sig3.sp_times(rec.epsilon_k),
    );
    assert(sp_of_energy_sum(p_split, x) == sig3.sp_times(rec.epsilon_k));
    lemma_powi3_pos(rec.sigma);
    S::law_pos_regular(sig3);
    S::law_times_div_cancel(sig3, rec.epsilon_k);
    assert(sp_of_epsilon_k(p_split, x) == rec.epsilon_k);
    assert(sp_of_epsilon_k(p_pure, x_pure) == rec.epsilon_k);
    lemma_pair_sum_collapse(
        x0,
        x1,
        |i: int| x[i].sp_times(sp_powi(p_split.sigma@[i], 3)),
        sig3,
    );
    assert(sp_of_sigma_x(p_split, x) == sig3.sp_powd(S::sp_from_ratio(1i64, 3i64)));
    let dq3 = sp_powi(dv.sp_div(rec.sigma), 3);
    lemma_pair_sum_collapse(
        x0,
        x1,
        |i: int| x[i].sp_times(sp_powi(seq![dv, dv][i].sp_div(p_split.sigma@[i]), 3)),
        dq3,
    );
    assert(sp_of_diameter_x(p_split, x, seq![dv, dv]) == dq3.sp_powd(S::sp_from_ratio(1i64, 3i64)));
    let qq3 = sp_powi(qv.sp_div(rec.sigma), 3);
    lemma_pair_sum_collapse(
        x0,
        x1,
        |i: int| x[i].sp_times(sp_powi(seq![qv, qv][i].sp_div(p_split.sigma@[i]), 3)),
        qq3,
    );
    assert(sp_of_diameter_x(p_split, x, seq![qv, qv]) == qq3.sp_powd(S::sp_from_ratio(1i64, 3i64)));
    // the pure side's weighted cubed-size sum is the single cube
    let g_pure = |i: int| x_pure[i].sp_times(sp_powi(p_pure.sigma@[i], 3));
    assert(sum_upto(0nat, g_pure) == S::sp_zero());
    assert(sum_upto(1nat, g_pure) == S::sp_zero().sp_plus(g_pure(0)));
    S::law_div_self(mm);
    assert(x_pure[0] == S::sp_one());
    S::law_times_one(sig3);
    S::law_plus_zero(sig3);
    assert(sum_upto(1nat, g_pure) == sig3);
    // the second-virial sum collapses to the pure pairwise deviation
    let qr = qv.sp_div(rec.sigma).sp_plus(qv.sp_div(rec.sigma)).sp_times(
        S::sp_from_ratio(1i64, 2i64),
    );
    let b2v = sig3.sp_times(
        sp_delta_b2(s_split.temperature.sp_div(rec.epsilon_k), rec.rep, rec.att, qr, k),
    );
    assert forall|i: int, j: int| 0 <= i < 2 && 0 <= j < 2 implies sp_virial_term(
        p_split,
        x,
        s_split.temperature,
        seq![qv, qv],
        k,
        i,
        j,
    ) == x[i].sp_times(x[j]).sp_times(b2v) by {
        S::law_times_assoc(
            x[i].sp_times(x[j]),
            sig3,
            sp_delta_b2(s_split.temperature.sp_div(rec.epsilon_k), rec.rep, rec.att, qr, k),
        );
    }
    lemma_pair_grid_collapse(
        x0,
        x1,
        |i: int, j: int| sp_virial_term(p_split, x, s_split.temperature, seq![qv, qv], k, i, j),
        b2v,
    );
    assert(sp_residual_virial_coefficient(p_split, x, s_split.temperature, seq![qv, qv], k)
        == b2v);
    // the pure side reduces to the same pairwise deviation
    let fv = |i: int, j: int| sp_virial_term(p_pure, x_pure, s_pure.temperature, seq![qv], k, i, j);
    assert(sum_upto(0nat, grid_flat(1, fv)) == S::sp_zero());
    assert(grid_flat(1, fv)(0) == fv(0, 0));
    assert(sp_residual_virial_coefficient(p_pure, x_pure, s_pure.temperature, seq![qv], k)
        == S::sp_zero().sp_plus(fv(0, 0)));
    S::law_times_one(S::sp_one());
    S::law_times_one(sig3);
    S::law_times_assoc(
        S::sp_one(),
        sig3,
        sp_delta_b2(s_pure.temperature.sp_div(rec.epsilon_k), rec.rep, rec.att, qr, k),
    );
    S::law_plus_zero(b2v);
    assert(sp_residual_virial_coefficient(p_pure, x_pure, s_pure.temperature, seq![qv], k)
        == b2v);
}

/// Shared facts about a state split into two pseudo-components against its
/// pure counterpart: the total moles, total density and mole-fraction sum.
proof fn lemma_split_state_sums<S: Scalar>(s_pure: State<S>, s_split: State<S>)
    requires
        s_pure.wf(),
        s_split.wf(),
        s_pure.n() == 1,
        s_split.n() == 2,
        s_pure.volume == s_split.volume,
        s_pure.moles@ == seq![s_split.moles@[0].sp_plus(s_split.moles@[1])],
        s_split.moles@[0].sp_plus(s_split.moles@[1]).sp_regular(),
    ensures
        sp_sum(s_pure.moles@) == s_split.moles@[0].sp_plus(s_split.moles@[1]),
        sp_sum(s_split.moles@) == s_split.moles@[0].sp_plus(s_split.moles@[1]),
        sp_sum(s_pure.partial_density@) == sp_sum(s_split.partial_density@),
        s_split.molefracs@[0].sp_plus(s_split.molefracs@[1]) == S::sp_one(),
        s_pure.molefracs@ =~= seq![S::sp_one()],
        s_split.molefracs@[0] == s_split.moles@[0].sp_div(s_split.moles@[0].sp_plus(s_split.moles@[1])),
        s_split.molefracs@[1] == s_split.moles@[1].sp_div(s_split.moles@[0].sp_plus(s_split.moles@[1])),
{
    let m0 = s_split.moles@[0];
    let m1 = s_split.moles@[1];
    let mm = m0.sp_plus(m1);
    assert(sum_upto(0nat, |i: int| s_split.moles@[i]) == S::sp_zero());
    assert(sum_upto(1nat, |i: int| s_split.moles@[i]) == S::sp_zero().sp_plus(m0));
    assert(sp_sum(s_split.moles@) == S::sp_zero().sp_plus(m0).sp_plus(m1));
    S::law_plus_zero(m0);
    assert(sum_upto(0nat, |i: int| s_pure.moles@[i]) == S::sp_zero());
    assert(sp_sum(s_pure.moles@) == S::sp_zero().sp_plus(mm));
    S::law_plus_zero(mm);
    S::law_div_plus(m0, m1, mm);
    S::law_div_self(mm);
    assert(sum_upto(0nat, |i: int| s_split.partial_density@[i]) == S::sp_zero());
    assert(sum_upto(1nat, |i: int| s_split.partial_density@[i]) == S::sp_zero().sp_plus(
        m0.sp_div(s_split.volume),
    ));
    assert(sp_sum(s_split.partial_density@) == S::sp_zero().sp_plus(m0.sp_div(s_split.volume)).sp_plus(
        m1.sp_div(s_split.volume),
    ));
    S::law_plus_zero(m0.sp_div(s_split.volume));
    S::law_div_plus(m0, m1, s_split.volume);
    assert(sum_upto(0nat, |i: int| s_pure.partial_density@[i]) == S::sp_zero());
    assert(sp_sum(s_pure.partial_density@) == S::sp_zero().sp_plus(mm.sp_div(s_pure.volume)));
    S::law_plus_zero(mm.sp_div(s_pure.volume));
}

/// Mixture symmetry of the hard-sphere term: splitting the substance leaves
/// every diameter moment, and with it the whole term, unchanged.
pub proof fn lemma_mixture_symmetry_hard_sphere<S: Scalar>(
    s_pure: State<S>,
    s_split: State<S>,
    dv: S,
)
    requires
        s_pure.wf(),
        s_split.wf(),
        s_pure.n() == 1,
        s_split.n() == 2,
        s_pure.temperature == s_split.temperature,
        s_pure.volume == s_split.volume,
        s_pure.moles@ == seq![s_split.moles@[0].sp_plus(s_split.moles@[1])],
        s_split.moles@[0].sp_plus(s_split.moles@[1]).sp_regular(),
    ensures
        sp_hard_sphere_helmholtz(s_pure, seq![dv]) == sp_hard_sphere_helmholtz(s_split, seq![dv, dv]),
{
    assert forall|k: nat| sp_zeta(s_split.partial_density@, seq![dv, dv], k) == #[trigger] sp_zeta(
        s_pure.partial_density@,
        seq![dv],
        k,
    ) by {
        lemma_zeta_split(s_pure, s_split, dv, k);
    }
    assert(sp_zeta(s_split.partial_density@, seq![dv, dv], 0) == sp_zeta(s_pure.partial_density@, seq![dv], 0));
    assert(sp_zeta(s_split.partial_density@, seq![dv, dv], 1) == sp_zeta(s_pure.partial_density@, seq![dv], 1));
    assert(sp_zeta(s_split.partial_density@, seq![dv, dv], 2) == sp_zeta(s_pure.partial_density@, seq![dv], 2));
    assert(sp_zeta(s_split.partial_density@, seq![dv, dv], 3) == sp_zeta(s_pure.partial_density@, seq![dv], 3));
}

/// One diameter moment of a split state equals the pure moment.
proof fn lemma_zeta_split<S: Scalar>(s_pure: State<S>, s_split: State<S>, dv: S, k: nat)
    requires
        s_pure.wf(),
        s_split.wf(),
        s_pure.n() == 1,
        s_split.n() == 2,
        s_pure.volume == s_split.volume,
        s_pure.moles@ == seq![s_split.moles@[0].sp_plus(s_split.moles@[1])],
        s_split.moles@[0].sp_plus(s_split.moles@[1]).sp_regular(),
    ensures
        sp_zeta(s_split.partial_density@, seq![dv, dv], k) == sp_zeta(s_pure.partial_density@, seq![dv], k),
{
    let m0 = s_split.moles@[0];
    let m1 = s_split.moles@[1];
    let mm = m0.sp_plus(m1);
    let c = sp_powi(dv, k);
    let f_split = |i: int| s_split.partial_density@[i].sp_times(sp_powi(seq![dv, dv][i], k));
    assert(sum_upto(0nat, f_split) == S::sp_zero());
    assert(sum_upto(1nat, f_split) == S::sp_zero().sp_plus(f_split(0)));
    assert(sum_upto(2nat, f_split) == sum_upto(1nat, f_split).sp_plus(f_split(1)));
    S::law_plus_zero(m0.sp_div(s_split.volume).sp_times(c));
    S::law_distrib(m0.sp_div(s_split.volume), m1.sp_div(s_split.volume), c);
    S::law_div_plus(m0, m1, s_split.volume);
    let f_pure = |i: int| s_pure.partial_density@[i].sp_times(sp_powi(seq![dv][i], k));
    assert(sum_upto(0nat, f_pure) == S::sp_zero());
    assert(sum_upto(1nat, f_pure) == S::sp_zero().sp_plus(f_pure(0)));
    S::law_plus_zero(mm.sp_div(s_pure.volume).sp_times(c));
}

/// Mixture symmetry of the Weeks-Chandler-Andersen reference perturbation,
/// for packing transforms that repeat one A-form and one B-form value.
pub proof fn lemma_mixture_symmetry_reference_wca<S: Scalar>(
    rec: UVRecord<S>,
    p_pure: UVParameters<S>,
    p_split: UVParameters<S>,
    s_pure: State<S>,
    s_split: State<S>,
    dv: S,
    qv: S,
    eta_a_pure: Seq<Vec<S>>,
    eta_b_pure: Seq<Vec<S>>,
    eta_a_split: Seq<Vec<S>>,
    eta_b_split: Seq<Vec<S>>,
    ea: S,
    eb: S,
)
    requires
        p_pure.wf(),
        p_split.wf(),
        p_pure.combined_from(seq![rec], seq![seq![S::sp_zero()]]),
        p_split.combined_from(
            seq![rec, rec],
            Seq::new(2, |i: int| Seq::new(2, |j: int| S::sp_zero())),
        ),
        s_pure.wf(),
        s_split.wf(),
        s_pure.n() == 1,
        s_split.n() == 2,
        s_pure.temperature == s_split.temperature,
        s_pure.volume == s_split.volume,
        s_pure.moles@ == seq![s_split.moles@[0].sp_plus(s_split.moles@[1])],
        s_split.moles@[0].sp_plus(s_split.moles@[1]).sp_regular(),
        eta_a_pure[0]@[0] == ea,
        eta_b_pure[0]@[0] == eb,
        forall|i: int, j: int| 0 <= i < 2 && 0 <= j < 2 ==> #[trigger] eta_a_split[i]@[j] == ea,
        forall|i: int, j: int| 0 <= i < 2 && 0 <= j < 2 ==> #[trigger] eta_b_split[i]@[j] == eb,
    ensures
        sp_ref_wca_helmholtz(p_pure, s_pure, seq![dv], seq![qv], eta_a_pure, eta_b_pure) == sp_ref_wca_helmholtz(
            p_split,
            s_split,
            seq![dv, dv],
            seq![qv, qv],
            eta_a_split,
            eta_b_split,
        ),
{
    lemma_split_state_sums(s_pure, s_split);
    let x = s_split.molefracs@;
    let x_pure = s_pure.molefracs@;
    let mm = s_split.moles@[0].sp_plus(s_split.moles@[1]);
    let half = S::sp_from_ratio(1i64, 2i64);
    let rs = sp_potential_minimum_position(rec.rep, rec.att).sp_plus(
        sp_potential_minimum_position(rec.rep, rec.att),
    ).sp_times(half);
    let d_ij = dv.sp_plus(dv).sp_times(half);
    let q_ij = qv.sp_plus(qv).sp_times(half);
    let sig_d = sp_sigma_ij(rec.sigma, rec.sigma);
    let big = sp_closure_term(ea).sp_times(
        sp_powi(q_ij, 3).sp_neg().sp_plus(sp_powi(rs.sp_times(sig_d), 3)),
    ).sp_minus(
        sp_closure_term(eb).sp_times(
            sp_powi(d_ij, 3).sp_neg().sp_plus(sp_powi(rs.sp_times(sig_d), 3)),
        ),
    );
    assert forall|i: int, j: int| 0 <= i < 2 && 0 <= j < 2 implies sp_ref_wca_term(
        p_split,
        x,
        seq![dv, dv],
        seq![qv, qv],
        eta_a_split,
        eta_b_split,
        i,
        j,
    ) == x[i].sp_times(x[j]).sp_times(big) by {
        assert(seq![rec, rec][i] == rec && seq![rec, rec][j] == rec);
        assert(p_split.rep@[i] == rec.rep && p_split.rep@[j] == rec.rep);
        assert(p_split.att@[i] == rec.att && p_split.att@[j] == rec.att);
        assert(p_split.sigma_ij@[i]@[j] == sp_sigma_ij(rec.sigma, rec.sigma));
        assert(seq![dv, dv][i] == dv && seq![dv, dv][j] == dv);
        assert(seq![qv, qv][i] == qv && seq![qv, qv][j] == qv);
        assert(eta_a_split[i]@[j] == ea && eta_b_split[i]@[j] == eb);
    }
    lemma_pair_grid_collapse(
        x[0],
        x[1],
        |i: int, j: int| sp_ref_wca_term(p_split, x, seq![dv, dv], seq![qv, qv], eta_a_split, eta_b_split, i, j),
        big,
    );
    let f_pure = |i: int, j: int| sp_ref_wca_term(p_pure, x_pure, seq![dv], seq![qv], eta_a_pure, eta_b_pure, i, j);
    assert(sum_upto(0nat, grid_flat(1, f_pure)) == S::sp_zero());
    assert(grid_flat(1, f_pure)(0) == f_pure(0, 0));
    assert(sum_grid(1, f_pure) == S::sp_zero().sp_plus(f_pure(0, 0)));
    assert(seq![rec][0] == rec);
    assert(p_pure.rep@[0] == rec.rep && p_pure.att@[0] == rec.att);
    assert(p_pure.sigma_ij@[0]@[0] == sp_sigma_ij(rec.sigma, rec.sigma));
    assert(seq![dv][0] == dv && seq![qv][0] == qv);
    assert(x_pure[0] == S::sp_one());
    S::law_times_one(S::sp_one());
    S::law_times_one(big);
    assert(f_pure(0, 0) == big);
    S::law_plus_zero(big);
}

/// Mixture symmetry of the Barker-Henderson reference perturbation, for
/// packing transforms that repeat one A-form and one B-form value.
pub proof fn lemma_mixture_symmetry_reference_bh<S: Scalar>(
    rec: UVRecord<S>,
    p_pure: UVParameters<S>,
    p_split: UVParameters<S>,
    s_pure: State<S>,
    s_split: State<S>,
    dv: S,
    eta_a_pure: Seq<Vec<S>>,
    eta_b_pure: Seq<Vec<S>>,
    eta_a_split: Seq<Vec<S>>,
    eta_b_split: Seq<Vec<S>>,
    ea: S,
    eb: S,
)
    requires
        p_pure.wf(),
        p_split.wf(),
        p_pure.combined_from(seq![rec], seq![seq![S::sp_zero()]]),
        p_split.combined_from(
            seq![rec, rec],
            Seq::new(2, |i: int| Seq::new(2, |j: int| S::sp_zero())),
        ),
        s_pure.wf(),
        s_split.wf(),
        s_pure.n() == 1,
        s_split.n() == 2,
        s_pure.temperature == s_split.temperature,
        s_pure.volume == s_split.volume,
        s_pure.moles@ == seq![s_split.moles@[0].sp_plus(s_split.moles@[1])],
        s_split.moles@[0].sp_plus(s_split.moles@[1]).sp_regular(),
        eta_a_pure[0]@[0] == ea,
        eta_b_pure[0]@[0] == eb,
        forall|i: int, j: int| 0 <= i < 2 && 0 <= j < 2 ==> #[trigger] eta_a_split[i]@[j] == ea,
        forall|i: int, j: int| 0 <= i < 2 && 0 <= j < 2 ==> #[trigger] eta_b_split[i]@[j] == eb,
    ensures
        sp_ref_bh_helmholtz(p_pure, s_pure, seq![dv], eta_a_pure, eta_b_pure) == sp_ref_bh_helmholtz(
            p_split,
            s_split,
            seq![dv, dv],
            eta_a_split,
            eta_b_split,
        ),
{
    lemma_split_state_sums(s_pure, s_split);
    let x = s_split.molefracs@;
    let x_pure = s_pure.molefracs@;
    let half = S::sp_from_ratio(1i64, 2i64);
    let d_ij = dv.sp_plus(dv).sp_times(half);
    let cl = sp_closure_term(ea).sp_minus(sp_closure_term(eb));
    let geo = sp_powi(d_ij, 3).sp_neg().sp_plus(sp_powi(sp_sigma_ij(rec.sigma, rec.sigma), 3));
    let big = cl.sp_times(geo);
    assert forall|i: int, j: int| 0 <= i < 2 && 0 <= j < 2 implies sp_ref_bh_term(
        p_split,
        x,
        seq![dv, dv],
        eta_a_split,
        eta_b_split,
        i,
        j,
    ) == x[i].sp_times(x[j]).sp_times(big) by {
        assert(seq![rec, rec][i] == rec && seq![rec, rec][j] == rec);
        assert(p_split.sigma_ij@[i]@[j] == sp_sigma_ij(rec.sigma, rec.sigma));
        assert(seq![dv, dv][i] == dv && seq![dv, dv][j] == dv);
        assert(eta_a_split[i]@[j] == ea && eta_b_split[i]@[j] == eb);
        S::law_times_assoc(x[i].sp_times(x[j]), cl, geo);
    }
    lemma_pair_grid_collapse(
        x[0],
        x[1],
        |i: int, j: int| sp_ref_bh_term(p_split, x, seq![dv, dv], eta_a_split, eta_b_split, i, j),
        big,
    );
    let f_pure = |i: int, j: int| sp_ref_bh_term(p_pure, x_pure, seq![dv], eta_a_pure, eta_b_pure, i, j);
    assert(sum_upto(0nat, grid_flat(1, f_pure)) == S::sp_zero());
    assert(grid_flat(1, f_pure)(0) == f_pure(0, 0));
    assert(sum_grid(1, f_pure) == S::sp_zero().sp_plus(f_pure(0, 0)));
    assert(seq![rec][0] == rec);
    assert(p_pure.sigma_ij@[0]@[0] == sp_sigma_ij(rec.sigma, rec.sigma));
    assert(seq![dv][0] == dv);
    assert(x_pure[0] == S::sp_one());
    S::law_times_one(S::sp_one());
    S::law_times_one(cl);
    S::law_times_assoc(S::sp_one(), cl, geo);
    S::law_times_one(big);
    assert(f_pure(0, 0) == big);
    S::law_plus_zero(big);
}

/// Mixture symmetry of the whole scheme: splitting one substance into two
/// identical-parameter pseudo-components, at the same temperature, volume
/// and total moles and with the pure correlation values repeated, reproduces
/// the pure-substance residual Helmholtz energy, in either division.  As the
/// total moles agree, the molar results agree as well.
pub proof fn lemma_mixture_symmetry<S: Scalar>(
    rec: UVRecord<S>,
    u_pure: UVTheory<S>,
    u_split: UVTheory<S>,
    s_pure: State<S>,
    s_split: State<S>,
    c_pure: Correlations<S>,
    c_split: Correlations<S>,
    ea: S,
    eb: S,
)
    requires
        u_pure.wf(),
        u_split.wf(),
        u_pure.options.perturbation == u_split.options.perturbation,
        u_pure.parameters.combined_from(seq![rec], seq![seq![S::sp_zero()]]),
        u_split.parameters.combined_from(
            seq![rec, rec],
            Seq::new(2, |i: int| Seq::new(2, |j: int| S::sp_zero())),
        ),
        sp_records_valid(seq![rec]),
        s_pure.wf(),
        s_split.wf(),
        s_pure.n() == 1,
        s_split.n() == 2,
        s_pure.temperature == s_split.temperature,
        s_pure.volume == s_split.volume,
        s_pure.moles@ == seq![s_split.moles@[0].sp_plus(s_split.moles@[1])],
        s_split.moles@[0].sp_plus(s_split.moles@[1]).sp_regular(),
        c_pure.d@ =~= seq![c_split.d@[0]],
        c_pure.q@ =~= seq![c_split.q@[0]],
        c_split.d@ =~= seq![c_split.d@[0], c_split.d@[0]],
        c_split.q@ =~= seq![c_split.q@[0], c_split.q@[0]],
        c_pure.eta_a@[0]@[0] == ea,
        c_pure.eta_b@[0]@[0] == eb,
        forall|i: int, j: int| 0 <= i < 2 && 0 <= j < 2 ==> #[trigger] c_split.eta_a@[i]@[j] == ea,
        forall|i: int, j: int| 0 <= i < 2 && 0 <= j < 2 ==> #[trigger] c_split.eta_b@[i]@[j] == eb,
        c_pure.attractive_bh == c_split.attractive_bh,
    ensures
        u_pure.sp_residual_helmholtz(s_pure, c_pure) == u_split.sp_residual_helmholtz(s_split, c_split),
{
    let dv = c_split.d@[0];
    let qv = c_split.q@[0];
    lemma_mixture_symmetry_hard_sphere(s_pure, s_split, dv);
    assert(sp_hard_sphere_helmholtz(s_pure, c_pure.d@) == sp_hard_sphere_helmholtz(s_split, c_split.d@));
    let f_pure = |m: int| sp_contribution_energy(u_pure.contributions@[m], u_pure.parameters, s_pure, c_pure);
    let f_split = |m: int| sp_contribution_energy(u_split.contributions@[m], u_split.parameters, s_split, c_split);
    match u_pure.options.perturbation {
        Perturbation::BarkerHenderson => {
            lemma_mixture_symmetry_reference_bh(
                rec,
                u_pure.parameters,
                u_split.parameters,
                s_pure,
                s_split,
                dv,
                c_pure.eta_a@,
                c_pure.eta_b@,
                c_split.eta_a@,
                c_split.eta_b@,
                ea,
                eb,
            );
            lemma_mixture_symmetry_attractive(
                rec,
                u_pure.parameters,
                u_split.parameters,
                s_pure,
                s_split,
                dv,
                qv,
                c_pure.attractive_bh,
            );
            assert(u_pure.contributions@.len() == 3 && u_split.contributions@.len() == 3);
            assert(sum_upto(0nat, f_pure) == S::sp_zero());
            assert(sum_upto(1nat, f_pure) == S::sp_zero().sp_plus(f_pure(0)));
            assert(sum_upto(2nat, f_pure) == sum_upto(1nat, f_pure).sp_plus(f_pure(1)));
            assert(sum_upto(3nat, f_pure) == sum_upto(2nat, f_pure).sp_plus(f_pure(2)));
            assert(sum_upto(0nat, f_split) == S::sp_zero());
            assert(sum_upto(1nat, f_split) == S::sp_zero().sp_plus(f_split(0)));
            assert(sum_upto(2nat, f_split) == sum_upto(1nat, f_split).sp_plus(f_split(1)));
            assert(sum_upto(3nat, f_split) == sum_upto(2nat, f_split).sp_plus(f_split(2)));
            assert(f_pure(0) == f_split(0));
            assert(f_pure(1) == f_split(1));
            assert(f_pure(2) == f_split(2));
        },
        Perturbation::WeeksChandlerAndersen => {
            lemma_mixture_symmetry_reference_wca(
                rec,
                u_pure.parameters,
                u_split.parameters,
                s_pure,
                s_split,
                dv,
                qv,
                c_pure.eta_a@,
                c_pure.eta_b@,
                c_split.eta_a@,
                c_split.eta_b@,
                ea,
                eb,
            );
            lemma_mixture_symmetry_attractive(
                rec,
                u_pure.parameters,
                u_split.parameters,
                s_pure,
                s_split,
                dv,
                qv,
                sp_wca_constants::<S>(),
            );
            assert(u_pure.contributions@.len() == 3 && u_split.contributions@.len() == 3);
            assert(sum_upto(0nat, f_pure) == S::sp_zero());
            assert(sum_upto(1nat, f_pure) == S::sp_zero().sp_plus(f_pure(0)));
            assert(sum_upto(2nat, f_pure) == sum_upto(1nat, f_pure).sp_plus(f_pure(1)));
            assert(sum_upto(3nat, f_pure) == sum_upto(2nat, f_pure).sp_plus(f_pure(2)));
            assert(sum_upto(0nat, f_split) == S::sp_zero());
            assert(sum_upto(1nat, f_split) == S::sp_zero().sp_plus(f_split(0)));
            assert(sum_upto(2nat, f_split) == sum_upto(1nat, f_split).sp_plus(f_split(1)));
            assert(sum_upto(3nat, f_split) == sum_upto(2nat, f_split).sp_plus(f_split(2)));
            assert(f_pure(0) == f_split(0));
            assert(f_pure(1) == f_split(1));
            assert(f_pure(2) == f_split(2));
        },
    }
}

/// Single-component reduction of the residual second virial coefficient:
/// the pairwise sum collapses to the single pair term, evaluated at the
/// component's own combined parameters and its own reduced shape diameter —
/// the mean of the reduced shape diameter with itself is itself.
pub proof fn lemma_pure_component_virial<S: Scalar>(
    p: UVParameters<S>,
    records: Seq<UVRecord<S>>,
    kk: Seq<Seq<S>>,
    m: S,
    t: S,
    q0: S,
    k: AttractiveConstants<S>,
)
    requires
        p.wf(),
        records.len() == 1,
        p.combined_from(records, kk),
        kk[0][0] == S::sp_zero(),
        sp_records_valid(records),
        m.sp_regular(),
    ensures
        sp_residual_virial_coefficient(p, seq![m.sp_div(m)], t, seq![q0], k) == sp_powi(
            records[0].sigma,
            3,
        ).sp_times(
            sp_delta_b2(
                t.sp_div(records[0].epsilon_k),
                records[0].rep,
                records[0].att,
                q0.sp_div(records[0].sigma),
                k,
            ),
        ),
{
    let x = seq![m.sp_div(m)];
    S::law_div_self(m);
    assert(x[0] == S::sp_one());
    lemma_diagonal_combination(records[0]);
    let qs = q0.sp_div(records[0].sigma);
    S::law_half(qs.sp_plus(qs));
    S::law_mean_self(qs);
    assert(qs.sp_plus(qs).sp_times(S::sp_from_ratio(1i64, 2i64)) == qs);
    let fv = |i: int, j: int| sp_virial_term(p, x, t, seq![q0], k, i, j);
    assert(sum_upto(0nat, grid_flat(1, fv)) == S::sp_zero());
    assert(grid_flat(1, fv)(0) == fv(0, 0));
    assert(sp_residual_virial_coefficient(p, x, t, seq![q0], k) == S::sp_zero().sp_plus(fv(0, 0)));
    let sig3 = sp_powi(records[0].sigma, 3);
    let b = sp_delta_b2(
        t.sp_div(records[0].epsilon_k),
        records[0].rep,
        records[0].att,
        qs,
        k,
    );
    S::law_times_one(S::sp_one());
    S::law_times_one(sig3);
    assert(fv(0, 0) == sig3.sp_times(b));
    S::law_plus_zero(sig3.sp_times(b));
}

/// The Boltzmann factor of the Mie potential is the multiplicative identity
/// at unit reduced separation, for every exponent and temperature: the two
/// powers of one coincide, so the exponent vanishes.
pub proof fn lemma_boltzmann_unit_separation<S: Scalar>(m: S, t: S)
    ensures
        sp_boltzmann_factor(m, t, S::sp_one()) == S::sp_one(),
{
    S::law_powd_one_base(m.sp_neg());
    S::law_powd_one_base(S::sp_from_ratio(6i64, 1i64).sp_neg());
    S::law_minus_self(S::sp_one());
    S::law_times_zero(
        t.sp_recip().sp_neg().sp_times(sp_mie_prefactor(m, S::sp_from_ratio(6i64, 1i64))),
    );
    S::law_exp_zero();
}

} // verus!
