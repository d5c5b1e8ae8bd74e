//! A plain floating-point implementation of the numeric interface, and basic
//! checks of the parameter store through it.

use uvtheory::attractive_perturbation_bh::AttractivePerturbationBH;
use uvtheory::attractive_perturbation_wca::{
    correlation_integral, delta_b12u, one_fluid_properties, residual_virial_coefficient,
    u_fraction, wca_constants, AttractivePerturbationWCA,
};
use uvtheory::dual::Dual;
use uvtheory::eos::{Contribution, Correlations, UVTheory, UVTheoryOptions};
use uvtheory::hard_sphere::{closure_term, hard_sphere_energy, packing_fraction};
use uvtheory::mie::{boltzmann_factor, mean_field_constant, potential_minimum_position};
use uvtheory::parameters::{ParameterError, UVParameters, UVRecord};
use uvtheory::scalar::{powi, Scalar};
use uvtheory::state::State;
use uvtheory::Perturbation;

#[derive(Copy, Clone, Debug, PartialEq)]
pub struct R64(pub f64);

// The `sp_` members are the specification images of the operations; outside
// the verifier they are ordinary functions, and for a plain number the image
// of each operation is the operation itself.  The `law_` members are proof
// obligations with no runtime content.
impl Scalar for R64 {
    fn sp_zero() -> R64 {
        R64(0.0)
    }
    fn sp_one() -> R64 {
        R64(1.0)
    }
    fn sp_plus(self, other: R64) -> R64 {
        self.plus(other)
    }
    fn sp_minus(self, other: R64) -> R64 {
        self.minus(other)
    }
    fn sp_times(self, other: R64) -> R64 {
        self.times(other)
    }
    fn sp_div(self, other: R64) -> R64 {
        self.div(other)
    }
    fn sp_neg(self) -> R64 {
        self.neg()
    }
    fn sp_recip(self) -> R64 {
        self.recip()
    }
    fn sp_exp(self) -> R64 {
        self.exp()
    }
    fn sp_tanh(self) -> R64 {
        self.tanh()
    }
    fn sp_ln(self) -> R64 {
        self.ln()
    }
    fn sp_sqrt(self) -> R64 {
        self.sqrt()
    }
    fn sp_powd(self, exponent: R64) -> R64 {
        self.powd(exponent)
    }
    fn sp_from_ratio(numerator: i64, denominator: i64) -> R64 {
        R64::from_ratio(numerator, denominator)
    }
    fn sp_pi() -> R64 {
        R64::pi()
    }
    fn sp_lt(self, other: R64) -> bool {
        self.lt(other)
    }
    fn sp_regular(self) -> bool {
        self.0.is_finite() && self.0 != 0.0
    }
    fn law_plus_zero(_: R64) {}
    fn law_times_one(_: R64) {}
    fn law_times_zero(_: R64) {}
    fn law_plus_comm(_: R64, _: R64) {}
    fn law_times_comm(_: R64, _: R64) {}
    fn law_distrib(_: R64, _: R64, _: R64) {}
    fn law_minus_self(_: R64) {}
    fn law_div_self(_: R64) {}
    fn law_zero_div(_: R64) {}
    fn law_times_div_cancel(_: R64, _: R64) {}
    fn law_div_plus(_: R64, _: R64, _: R64) {}
    fn law_mean_self(_: R64) {}
    fn law_sqrt_square(_: R64) {}
    fn law_plus_assoc(_: R64, _: R64, _: R64) {}
    fn law_times_assoc(_: R64, _: R64, _: R64) {}
    fn law_minus_zero(_: R64) {}
    fn law_plus_minus_cancel(_: R64, _: R64) {}
    fn law_plus_minus_swap(_: R64, _: R64, _: R64, _: R64) {}
    fn law_pos_times(_: R64, _: R64) {}
    fn law_pos_plus(_: R64, _: R64) {}
    fn law_zero_lt_one() {}
    fn law_lt_trans(_: R64, _: R64, _: R64) {}
    fn law_pos_regular(_: R64) {}
    fn law_half(_: R64) {}
    fn law_powd_one_base(_: R64) {}
    fn law_ln_one() {}
    fn law_exp_zero() {}
    fn zero() -> R64 {
        R64(0.0)
    }
    fn one() -> R64 {
        R64(1.0)
    }
    fn plus(self, other: R64) -> R64 {
        R64(self.0 + other.0)
    }
    fn minus(self, other: R64) -> R64 {
        R64(self.0 - other.0)
    }
    fn times(self, other: R64) -> R64 {
        R64(self.0 * other.0)
    }
    fn div(self, other: R64) -> R64 {
        R64(self.0 / other.0)
    }
    fn neg(self) -> R64 {
        R64(-self.0)
    }
    fn recip(self) -> R64 {
        R64(self.0.recip())
    }
    fn exp(self) -> R64 {
        R64(self.0.exp())
    }
    fn tanh(self) -> R64 {
        R64(self.0.tanh())
    }
    fn ln(self) -> R64 {
        R64(self.0.ln())
    }
    fn sqrt(self) -> R64 {
        R64(self.0.sqrt())
    }
    fn powd(self, exponent: R64) -> R64 {
        R64(self.0.powf(exponent.0))
    }
    fn from_ratio(numerator: i64, denominator: i64) -> R64 {
        R64(numerator as f64 / denominator as f64)
    }
    fn pi() -> R64 {
        R64(std::f64::consts::PI)
    }
    fn lt(self, other: R64) -> bool {
        self.0 < other.0
    }
}

/// Absolute-tolerance comparison, as the regression values are stated.
fn close(a: f64, b: f64, tol: f64) {
    assert!(
        (a - b).abs() <= tol,
        "left {a}, right {b}, difference {}",
        (a - b).abs()
    );
}

fn methane(rep: f64, att: f64) -> UVParameters<R64> {
    let r = UVRecord::new(R64(rep), R64(att), R64(3.7039), R64(150.03));
    UVParameters::new_pure(r).unwrap()
}

// Reduced effective reference and shape diameters of the
// Weeks-Chandler-Andersen division for rep 24, att 6 at reduced
// temperature 4, as the temperature correlations supply them.
const D_WCA_RED: f64 = 0.9614325601784048;
const Q_WCA_RED: f64 = 0.9751576149023544;

#[test]
fn plain_arithmetic_through_the_interface() {
    let a = R64(2.5);
    let b = R64(4.0);
    assert_eq!(a.plus(b), R64(6.5));
    assert_eq!(a.times(b), R64(10.0));
    assert_eq!(R64::zero().plus(a), a);
    assert_eq!(R64::one().times(b), b);
    assert_eq!(powi(b, 3), R64(64.0));
    assert_eq!(R64::from_ratio(1, 2), R64(0.5));
    assert_eq!(R64::from_ratio(14419, 10000), R64(1.4419));
    assert_eq!(R64::pi(), R64(std::f64::consts::PI));
}

#[test]
fn dual_arithmetic_propagates_derivatives() {
    // d/dx (x * x) = 2 x
    let x = Dual::variable(R64(3.0));
    let sq = x.times(x);
    assert_eq!(sq.re, R64(9.0));
    assert_eq!(sq.eps, R64(6.0));
    // the base component never depends on the derivative component
    let y = Dual { re: R64(3.0), eps: R64(123.0) };
    assert_eq!(y.times(y).re, R64(9.0));
    // d/dx exp(x) = exp(x)
    let e = x.exp();
    assert_eq!(e.re, e.eps);
}

#[test]
fn parameter_construction_combines_pairs() {
    let r0 = UVRecord::new(R64(24.0), R64(6.0), R64(2.0), R64(1.5));
    let r1 = UVRecord::new(R64(12.0), R64(6.0), R64(1.0), R64(1.0));
    let p = UVParameters::new(vec![r0, r1]).unwrap();
    assert_eq!(p.ncomponents, 2);
    assert_eq!(p.rep_ij[0][1].0, (24.0f64 * 12.0).sqrt());
    assert_eq!(p.att_ij[0][1].0, 6.0);
    assert_eq!(p.sigma_ij[0][1].0, 1.5);
    // diagonal entries are the pure values
    assert_eq!(p.sigma_ij[0][0].0, 2.0);
    close(p.eps_k_ij[0][0].0, 1.5, 1e-15);
    // the off-diagonal energy carries the cube-weighted size correction
    let expected = (8.0f64 * 1.0).sqrt() / 1.5f64.powi(3) * 1.5f64.sqrt();
    close(p.eps_k_ij[0][1].0, expected, 1e-15);
}

#[test]
fn parameter_validation_rejects_bad_records() {
    let bad_sigma = UVRecord::new(R64(24.0), R64(6.0), R64(0.0), R64(1.5));
    assert_eq!(
        UVParameters::new(vec![bad_sigma]).unwrap_err(),
        ParameterError::NonPositiveSize { component: 0 }
    );
    let bad_energy = UVRecord::new(R64(24.0), R64(6.0), R64(1.0), R64(-2.0));
    assert_eq!(
        UVParameters::new(vec![bad_energy]).unwrap_err(),
        ParameterError::NonPositiveEnergy { component: 0 }
    );
    let bad_order = UVRecord::new(R64(6.0), R64(24.0), R64(1.0), R64(1.0));
    assert_eq!(
        UVParameters::new(vec![bad_order]).unwrap_err(),
        ParameterError::ExponentOrder { component: 0 }
    );
    let bad_att = UVRecord::new(R64(24.0), R64(0.0), R64(1.0), R64(1.0));
    assert_eq!(
        UVParameters::new(vec![bad_att]).unwrap_err(),
        ParameterError::NonPositiveAttraction { component: 0 }
    );
}

#[test]
fn state_derives_densities_and_fractions() {
    let s = State::new(R64(4.0), R64(2.0), vec![R64(1.7), R64(0.3)]);
    assert_eq!(s.partial_density[0].0, 0.85);
    assert_eq!(s.partial_density[1].0, 0.15);
    assert_eq!(s.molefracs[0].0, 0.85);
    assert_eq!(s.molefracs[1].0, 0.15);
    assert_eq!(s.total_moles().0, 2.0);
    assert_eq!(s.density().0, 1.0);
}

#[test]
fn pure_component_reduction() {
    // one-fluid mixing over a single component returns that component's own
    // parameters, for any mole amount
    let p = methane(24.0, 6.0);
    for moles in [0.3, 1.0, 2.0, 37.5] {
        let s = State::new(R64(600.12), R64(101.56), vec![R64(moles)]);
        let sigma = 3.7039f64;
        let d = vec![R64(D_WCA_RED * sigma)];
        let q = vec![R64(Q_WCA_RED * sigma)];
        let ofp = one_fluid_properties(&p, &s.molefracs, &d, &q);
        assert_eq!(ofp.rep.0, 24.0);
        assert_eq!(ofp.att.0, 6.0);
        close(ofp.epsilon_k.0, 150.03, 1e-12);
        close(ofp.weighted_sigma3.0, sigma.powi(3), 1e-13);
        close(ofp.sigma.0, sigma, 1e-14);
        close(ofp.d.0, D_WCA_RED, 1e-14);
        close(ofp.q.0, Q_WCA_RED, 1e-14);
    }
}

#[test]
fn mixture_symmetry() {
    // splitting one substance into two identical-parameter pseudo-components
    // reproduces the pure-substance molar result
    let rec = UVRecord::new(R64(24.0), R64(6.0), R64(3.7039), R64(150.03));
    let pure = UVParameters::new_pure(rec).unwrap();
    let split = UVParameters::new(vec![rec, rec]).unwrap();
    let sigma = 3.7039f64;
    let temperature = 4.0 * 150.03;
    let volume = 2.0 * sigma.powi(3);
    let s1 = State::new(R64(temperature), R64(volume), vec![R64(2.0)]);
    let s2 = State::new(R64(temperature), R64(volume), vec![R64(1.7), R64(0.3)]);
    let d1 = vec![R64(D_WCA_RED * sigma)];
    let q1 = vec![R64(Q_WCA_RED * sigma)];
    let d2 = vec![R64(D_WCA_RED * sigma); 2];
    let q2 = vec![R64(Q_WCA_RED * sigma); 2];
    let a1 = AttractivePerturbationWCA { parameters: pure }.helmholtz_energy(&s1, &d1, &q1);
    let a2 = AttractivePerturbationWCA { parameters: split }.helmholtz_energy(&s2, &d2, &q2);
    close(a1.0 / 2.0, a2.0 / 2.0, 1e-10);
}

#[test]
fn test_attractive_perturbation() {
    // rep = 24, reduced temperature = 4.0, reduced density = 1.0
    let moles = vec![R64(2.0)];
    let reduced_temperature = 4.0;
    let reduced_density = 1.0;
    let reduced_volume = 2.0 / reduced_density;

    let p = methane(24.0, 6.0);
    let sigma = p.sigma[0].0;
    let eps_k = p.epsilon_k[0].0;
    let state = State::new(
        R64(reduced_temperature * eps_k),
        R64(reduced_volume * sigma.powi(3)),
        moles.clone(),
    );
    let x = &state.molefracs;
    let d = vec![R64(D_WCA_RED * sigma)];
    let q = vec![R64(Q_WCA_RED * sigma)];

    let ofp = one_fluid_properties(&p, x, &d, &q);
    let t_x = state.temperature.div(ofp.epsilon_k);
    let rho_x = state.density().times(powi(ofp.sigma, 3));
    let rm_x = potential_minimum_position(ofp.rep, ofp.att);
    let mean_field_constant_x = mean_field_constant(ofp.rep, ofp.att, rm_x);

    let b21u = delta_b12u(t_x, mean_field_constant_x, ofp.weighted_sigma3, ofp.q, rm_x)
        .div(R64(sigma.powi(3)));
    close(b21u.0, -1.02233215790525, 1e-12);

    let i_wca = correlation_integral(
        rho_x,
        mean_field_constant_x,
        ofp.rep,
        ofp.att,
        ofp.d,
        ofp.q,
        rm_x,
        wca_constants(),
    );
    let delta_a1u = state
        .density()
        .div(t_x)
        .times(i_wca)
        .times(R64(2.0))
        .times(R64::pi())
        .times(ofp.weighted_sigma3);
    close(delta_a1u.0, -1.52406840346272, 1e-6);

    let mut sig3 = R64(0.0);
    for i in 0..1 {
        sig3 = sig3.plus(x[i].times(powi(p.sigma[i], 3)));
    }
    let u_frac = u_fraction(ofp.rep, state.density().times(sig3), wca_constants());

    let b2bar = residual_virial_coefficient(&p, x, state.temperature, &q, wca_constants())
        .div(R64(sigma.powi(3)));
    close(b2bar.0, -1.09102560732964, 1e-12);
    close(u_frac.0, 0.997069754340431, 1e-5);

    let pt = AttractivePerturbationWCA { parameters: p };
    let a = pt.helmholtz_energy(&state, &d, &q).div(moles[0]);
    close(-1.5242697155023, a.0, 1e-5);
}

#[test]
fn derivative_free_encoding_matches_plain_evaluation() {
    // a dual evaluation of the whole scheme, with every derivative component
    // zero, reproduces the plain evaluation bit for bit
    let p = methane(24.0, 6.0);
    let sigma = 3.7039f64;
    let u = UVTheory::new(p);
    let state = State::new(
        R64(4.0 * 150.03),
        R64(2.0 * sigma.powi(3)),
        vec![R64(2.0)],
    );
    let corr = correlations_r64(sigma, &state);
    let plain = u.residual_helmholtz_energy(&state, &corr);

    let pd = methane_dual(24.0, 6.0);
    let ud = UVTheory::new(pd);
    let state_d = State::new(
        Dual::constant(R64(4.0 * 150.03)),
        Dual::constant(R64(2.0 * sigma.powi(3))),
        vec![Dual::constant(R64(2.0))],
    );
    let corr_d = correlations_dual(sigma, &state_d);
    let dual = ud.residual_helmholtz_energy(&state_d, &corr_d);
    assert_eq!(dual.re, plain);
    assert_eq!(dual.eps, R64(0.0));
}

fn correlations_r64(sigma: f64, state: &State<R64>) -> Correlations<R64> {
    let d = vec![R64(D_WCA_RED * sigma)];
    let q = vec![R64(Q_WCA_RED * sigma)];
    let eta = packing_fraction(&state.partial_density, &d);
    Correlations {
        d,
        q,
        eta_a: vec![vec![eta.times(R64(0.95))]],
        eta_b: vec![vec![eta.times(R64(0.9))]],
        attractive_bh: wca_constants(),
    }
}

fn methane_dual(rep: f64, att: f64) -> UVParameters<Dual<R64>> {
    let r = UVRecord::new(
        Dual::constant(R64(rep)),
        Dual::constant(R64(att)),
        Dual::constant(R64(3.7039)),
        Dual::constant(R64(150.03)),
    );
    UVParameters::new_pure(r).unwrap()
}

fn correlations_dual(sigma: f64, state: &State<Dual<R64>>) -> Correlations<Dual<R64>> {
    let d = vec![Dual::constant(R64(D_WCA_RED * sigma))];
    let q = vec![Dual::constant(R64(Q_WCA_RED * sigma))];
    let eta = packing_fraction(&state.partial_density, &d);
    Correlations {
        d,
        q,
        eta_a: vec![vec![eta.times(Dual::constant(R64(0.95)))]],
        eta_b: vec![vec![eta.times(Dual::constant(R64(0.9)))]],
        attractive_bh: wca_constants(),
    }
}

#[test]
fn first_derivatives_match_finite_differences() {
    // forward-mode derivatives of the full scheme against centered finite
    // differences in temperature, volume and the mole number
    let sigma = 3.7039f64;
    let t0 = 4.0 * 150.03;
    let v0 = 2.0 * sigma.powi(3);
    let n0 = 2.0;
    let eval = |t: f64, v: f64, n: f64| -> f64 {
        let p = methane(24.0, 6.0);
        let u = UVTheory::new(p);
        let state = State::new(R64(t), R64(v), vec![R64(n)]);
        let corr = correlations_r64(sigma, &state);
        u.residual_helmholtz_energy(&state, &corr).0
    };
    let eval_dual = |which: usize| -> f64 {
        let pd = methane_dual(24.0, 6.0);
        let ud = UVTheory::new(pd);
        let lift = |v: f64, on: bool| {
            if on {
                Dual::variable(R64(v))
            } else {
                Dual::constant(R64(v))
            }
        };
        let state = State::new(
            lift(t0, which == 0),
            lift(v0, which == 1),
            vec![lift(n0, which == 2)],
        );
        let corr = correlations_dual(sigma, &state);
        ud.residual_helmholtz_energy(&state, &corr).eps.0
    };
    let rel = |a: f64, b: f64| (a - b).abs() / b.abs().max(a.abs());
    let ht = t0 * 2e-6;
    let dt = (eval(t0 + ht, v0, n0) - eval(t0 - ht, v0, n0)) / (2.0 * ht);
    assert!(rel(eval_dual(0), dt) < 1e-6, "temperature: {} vs {}", eval_dual(0), dt);
    let hv = v0 * 2e-6;
    let dv = (eval(t0, v0 + hv, n0) - eval(t0, v0 - hv, n0)) / (2.0 * hv);
    assert!(rel(eval_dual(1), dv) < 1e-6, "volume: {} vs {}", eval_dual(1), dv);
    let hn = n0 * 2e-6;
    let dn = (eval(t0, v0, n0 + hn) - eval(t0, v0, n0 - hn)) / (2.0 * hn);
    assert!(rel(eval_dual(2), dn) < 1e-6, "moles: {} vs {}", eval_dual(2), dn);
}

#[test]
fn scheme_composition_and_density_bound() {
    let p = methane(24.0, 6.0);
    let u = UVTheory::new(p);
    assert_eq!(u.components(), 1);
    assert_eq!(
        u.residual().as_slice(),
        &[
            Contribution::HardSphere,
            Contribution::ReferencePerturbationWca,
            Contribution::AttractivePerturbationWca
        ]
    );
    let p = methane(24.0, 6.0);
    let opts = UVTheoryOptions {
        max_eta: R64(0.5),
        perturbation: Perturbation::BarkerHenderson,
    };
    let ub = UVTheory::with_options(p, opts);
    assert_eq!(
        ub.residual().as_slice(),
        &[
            Contribution::HardSphere,
            Contribution::ReferencePerturbationBh,
            Contribution::AttractivePerturbationBh
        ]
    );
    let moles = vec![R64(2.0)];
    let expected = 0.5 * 2.0
        / (std::f64::consts::PI / 6.0 * 3.7039f64.powi(3) * 2.0);
    close(ub.compute_max_density(&moles).0, expected, 1e-15);
}

#[test]
fn subset_preserves_component_order() {
    let r0 = UVRecord::new(R64(24.0), R64(6.0), R64(2.0), R64(1.5));
    let r1 = UVRecord::new(R64(12.0), R64(6.0), R64(1.0), R64(1.0));
    let r2 = UVRecord::new(R64(14.0), R64(7.0), R64(1.2), R64(0.8));
    let p = UVParameters::new(vec![r0, r1, r2]).unwrap();
    let u = UVTheory::new(p);
    let sub = u.subset(&vec![2usize, 0usize]).unwrap();
    assert_eq!(sub.components(), 2);
    assert_eq!(sub.parameters.rep[0].0, 14.0);
    assert_eq!(sub.parameters.rep[1].0, 24.0);
    assert_eq!(sub.parameters.sigma[0].0, 1.2);
    assert_eq!(sub.parameters.sigma[1].0, 2.0);
    assert_eq!(sub.parameters.sigma_ij[0][1].0, 1.6);
}

#[test]
fn mean_field_constant_at_the_minimum() {
    // the Mie tail integral from the potential minimum, rep 24, att 6
    let rm = potential_minimum_position(R64(24.0), R64(6.0));
    close(rm.0, 4.0f64.powf(1.0 / 18.0), 1e-15);
    let m = mean_field_constant(R64(24.0), R64(6.0), rm);
    close(m.0, 0.5399661642406599, 1e-13);
}

#[test]
fn boltzmann_factor_of_the_mie_potential() {
    let m = 12.0f64;
    let t = 2.0f64;
    let r = 1.1f64;
    let c = m / (m - 6.0) * (m / 6.0f64).powf(6.0 / (m - 6.0));
    let expected = (-1.0 / t * c * (r.powf(-m) - r.powf(-6.0))).exp();
    let got = boltzmann_factor(R64(m), R64(t), R64(r));
    close(got.0, expected, 1e-14);
}

#[test]
fn hard_sphere_moments_and_closure() {
    let s = State::new(R64(4.0), R64(2.0), vec![R64(2.0)]);
    let d = vec![R64(0.9)];
    let eta = packing_fraction(&s.partial_density, &d);
    close(eta.0, std::f64::consts::PI / 6.0 * 0.9f64.powi(3), 1e-15);
    assert_eq!(closure_term(R64(0.0)).0, 1.0);
    // hard-sphere term against the mixture expression evaluated directly
    let z = |k: i32| std::f64::consts::PI / 6.0 * 1.0 * 0.9f64.powi(k);
    let omz = 1.0 - z(3);
    let expected = 2.0 * (6.0 / std::f64::consts::PI)
        * (3.0 * z(1) * z(2) / omz + z(2).powi(3) / (z(3) * omz.powi(2))
            + (z(2).powi(3) / z(3).powi(2) - z(0)) * omz.ln());
    let hs = hard_sphere_energy(&s, &d);
    close(hs.0, expected, 1e-12);
}

#[test]
fn mixture_symmetry_full_scheme() {
    // the whole scheme, in both divisions: a split substance with repeated
    // correlation values reproduces the pure result
    let rec = UVRecord::new(R64(24.0), R64(6.0), R64(3.7039), R64(150.03));
    let sigma = 3.7039f64;
    let temperature = 4.0 * 150.03;
    let volume = 2.0 * sigma.powi(3);
    for perturbation in [
        Perturbation::WeeksChandlerAndersen,
        Perturbation::BarkerHenderson,
    ] {
        let opts = UVTheoryOptions {
            max_eta: R64(0.5),
            perturbation,
        };
        let u1 = UVTheory::with_options(UVParameters::new_pure(rec).unwrap(), opts);
        let u2 = UVTheory::with_options(UVParameters::new(vec![rec, rec]).unwrap(), opts);
        let s1 = State::new(R64(temperature), R64(volume), vec![R64(2.0)]);
        let s2 = State::new(R64(temperature), R64(volume), vec![R64(1.7), R64(0.3)]);
        let c1 = correlations_r64(sigma, &s1);
        let eta_a = c1.eta_a[0][0];
        let eta_b = c1.eta_b[0][0];
        let c2 = Correlations {
            d: vec![R64(D_WCA_RED * sigma); 2],
            q: vec![R64(Q_WCA_RED * sigma); 2],
            eta_a: vec![vec![eta_a; 2]; 2],
            eta_b: vec![vec![eta_b; 2]; 2],
            attractive_bh: wca_constants(),
        };
        let a1 = u1.residual_helmholtz_energy(&s1, &c1);
        let a2 = u2.residual_helmholtz_energy(&s2, &c2);
        close(a1.0 / 2.0, a2.0 / 2.0, 1e-10);
    }
}

#[test]
fn contribution_labels() {
    assert_eq!(Contribution::HardSphere.label(), "Hard Sphere");
    assert_eq!(
        Contribution::ReferencePerturbationBh.label(),
        "Reference Perturbation"
    );
    assert_eq!(
        Contribution::AttractivePerturbationWca.label(),
        "Attractive Perturbation"
    );
}

#[test]
fn nested_duals_give_second_derivatives() {
    // nesting the dual type yields second derivatives: both components of
    // the inner value carry one differentiation each
    let x0 = 0.7f64;
    let x: Dual<Dual<R64>> = Dual {
        re: Dual {
            re: R64(x0),
            eps: R64(1.0),
        },
        eps: Dual {
            re: R64(1.0),
            eps: R64(0.0),
        },
    };
    // (x^3)'' = 6 x
    let cube = powi(x, 3);
    close(cube.re.re.0, x0.powi(3), 1e-15);
    close(cube.re.eps.0, 3.0 * x0 * x0, 1e-15);
    close(cube.eps.eps.0, 6.0 * x0, 1e-14);
    // (exp x)'' = exp x
    let e = x.exp();
    close(e.re.re.0, x0.exp(), 1e-15);
    close(e.eps.eps.0, x0.exp(), 1e-14);
}

#[test]
fn bh_attractive_agrees_with_wca_on_the_same_constants() {
    // the two divisions share one verified attractive algorithm; with the
    // same constant set, diameters and state they agree bit for bit
    let sigma = 3.7039f64;
    let state = State::new(
        R64(4.0 * 150.03),
        R64(2.0 * sigma.powi(3)),
        vec![R64(2.0)],
    );
    let d = vec![R64(D_WCA_RED * sigma)];
    let q = vec![R64(Q_WCA_RED * sigma)];
    let wca = AttractivePerturbationWCA { parameters: methane(24.0, 6.0) };
    let bh = AttractivePerturbationBH { parameters: methane(24.0, 6.0) };
    assert_eq!(
        bh.helmholtz_energy(&state, &d, &q, wca_constants()),
        wca.helmholtz_energy(&state, &d, &q)
    );
}

#[test]
fn boltzmann_factor_is_one_at_unit_separation() {
    assert_eq!(boltzmann_factor(R64(24.0), R64(4.0), R64(1.0)), R64(1.0));
    assert_eq!(boltzmann_factor(R64(12.7), R64(0.3), R64(1.0)), R64(1.0));
}

#[test]
fn blend_and_correlation_bounds_at_sample_states() {
    // the u-fraction lies in (0, 1) and the effective correlation exceeds
    // minus one at ordinary states; these analytic bounds hold of the
    // floating-point backend away from saturation and underflow, and are
    // checked here rather than axiomatized in the interface
    for rho in [0.05, 0.3, 1.0, 2.5] {
        let u = u_fraction(R64(24.0), R64(rho), wca_constants()).0;
        assert!(u > 0.0 && u < 1.0, "u-fraction {u} at density {rho}");
    }
    assert_eq!(u_fraction(R64(24.0), R64(0.0), wca_constants()).0, 0.0);
    for t in [0.5, 1.0, 4.0, 50.0] {
        let y = uvtheory::attractive_perturbation_wca::y_eff(
            R64(t),
            R64(24.0),
            R64(6.0),
            wca_constants(),
        )
        .0;
        assert!(y > -1.0, "effective correlation {y} at reduced temperature {t}");
    }
}
