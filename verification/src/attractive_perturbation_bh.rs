//! Attractive-perturbation contribution in the Barker-Henderson division.
//!
//! The algorithm is the one of [`crate::attractive_perturbation_wca`],
//! evaluated over the Barker-Henderson division's fitted constant set.  That
//! set is empirical data of the division; like the temperature-dependent
//! diameters, it is supplied by the caller and the term is verified for
//! every value it can take.

use vstd::prelude::*;

use crate::attractive_perturbation_wca::{
    attractive_energy, sp_attractive_helmholtz, AttractiveConstants,
};
use crate::parameters::UVParameters;
use crate::scalar::Scalar;
use crate::state::State;

verus! {

/// Attractive-perturbation contribution in the Barker-Henderson division.
#[derive(Clone, Debug)]
pub struct AttractivePerturbationBH<S: Scalar> {
    /// The shared, read-only parameter set.
    pub parameters: UVParameters<S>,
}

/// The attractive-perturbation Helmholtz energy in the Barker-Henderson
/// division: the generic term over that division's supplied constant set.
pub fn attractive_bh_energy<S: Scalar>(
    p: &UVParameters<S>,
    state: &State<S>,
    d: &Vec<S>,
    q: &Vec<S>,
    constants: AttractiveConstants<S>,
) -> (r: S)
    requires
        p.wf(),
        state.wf(),
        state.n() == p.n(),
        d@.len() == p.n(),
        q@.len() == p.n(),
    ensures
        r == sp_attractive_helmholtz(*p, *state, d@, q@, constants),
{
    attractive_energy(p, state, d, q, constants)
}

impl<S: Scalar> AttractivePerturbationBH<S> {
    /// The attractive-perturbation Helmholtz energy, over the thermal
    /// energy, at the given state, with the diameters `d` and `q` and the
    /// division's fitted constant set supplied.
    pub fn helmholtz_energy(
        &self,
        state: &State<S>,
        d: &Vec<S>,
        q: &Vec<S>,
        constants: AttractiveConstants<S>,
    ) -> (r: S)
        requires
            self.parameters.wf(),
            state.wf(),
            state.n() == self.parameters.n(),
            d@.len() == self.parameters.n(),
            q@.len() == self.parameters.n(),
        ensures
            r == sp_attractive_helmholtz(self.parameters, *state, d@, q@, constants),
    {
        attractive_bh_energy(&self.parameters, state, d, q, constants)
    }
}

} // verus!
