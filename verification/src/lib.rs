//! Residual Helmholtz energy of Mie fluids from first-order perturbation
//! theory, written against an abstract differentiable-scalar interface.
//!
//! Every formula is expressed over the [`scalar::Scalar`] trait, so the same
//! verified code evaluates with plain numbers or with derivative-carrying
//! values.  Each executable function carries a contract equating its result
//! with a specification-level mirror of the formula, and the mixing,
//! perturbation and scheme-composition layers are proved against those
//! mirrors.
//!
//! The effective hard-sphere diameters, shape diameters and packing-fraction
//! transforms of a division are temperature-dependent empirical fits.  Their
//! per-state values enter every evaluator as supplied inputs, gathered in
//! [`eos::Correlations`], so the formula set is verified for every value the
//! fits can take.

pub mod attractive_perturbation_bh;
pub mod attractive_perturbation_wca;
pub mod dual;
pub mod eos;
pub mod hard_sphere;
pub mod laws;
pub mod mie;
pub mod parameters;
pub mod reference_perturbation_bh;
pub mod reference_perturbation_wca;
pub mod scalar;
pub mod state;

use vstd::prelude::*;

verus! {

/// The two conventions for dividing the pair potential into a reference and
/// a perturbation part.
#[derive(Copy, Clone, PartialEq, Eq, Structural, Debug)]
pub enum Perturbation {
    BarkerHenderson,
    WeeksChandlerAndersen,
}

} // verus!
