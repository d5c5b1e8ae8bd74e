//! The scheme composer: the top-level equation-of-state object.
//!
//! Given a parameter set and options — a maximum packing fraction and a
//! dividing scheme — it builds the ordered contribution list of that scheme
//! once, at construction.  The total residual Helmholtz energy is the sum of
//! the contributions' outputs at one state.  A maximum-density bound and a
//! component-subset operation serve external solvers.
//!
//! Both divisions compose the three terms hard sphere, reference
//! perturbation and attractive perturbation, in that order.  The
//! Weeks-Chandler-Andersen attractive term carries its fitted constant set
//! compiled in; the Barker-Henderson one reads its set from the supplied
//! correlation values.

use vstd::prelude::*;

use crate::attractive_perturbation_bh::attractive_bh_energy;
use crate::attractive_perturbation_wca::{
    attractive_wca_energy, sp_attractive_helmholtz, sp_attractive_wca_helmholtz,
    AttractiveConstants,
};
use crate::hard_sphere::{hard_sphere_energy, sp_hard_sphere_helmholtz};
use crate::parameters::{sp_records_valid, square_matrix, ParameterError, UVParameters};
use crate::reference_perturbation_bh::{reference_bh_energy, sp_ref_bh_helmholtz};
use crate::reference_perturbation_wca::{reference_wca_energy, sp_ref_wca_helmholtz};
use crate::scalar::{powi, sp_powi, sum_upto, Scalar};
use crate::state::{sp_sum, sum, State};
use crate::Perturbation;

verus! {

/// Configuration of a scheme: the packing-fraction ceiling used by the
/// maximum-density bound, and the chosen dividing scheme.
#[derive(Copy, Clone, Debug)]
pub struct UVTheoryOptions<S: Scalar> {
    /// Maximum packing fraction for the density bound.
    pub max_eta: S,
    /// The chosen dividing scheme.
    pub perturbation: Perturbation,
}

impl<S: Scalar> Default for UVTheoryOptions<S> {
    /// Half maximum packing fraction, Weeks-Chandler-Andersen division.
    fn default() -> (r: Self)
        ensures
            r.max_eta == S::sp_from_ratio(1i64, 2i64),
            r.perturbation == Perturbation::WeeksChandlerAndersen,
    {
        UVTheoryOptions {
            max_eta: S::from_ratio(1, 2),
            perturbation: Perturbation::WeeksChandlerAndersen,
        }
    }
}

/// One member of a scheme's ordered contribution list.
#[derive(Copy, Clone, Debug, PartialEq, Eq, Structural)]
pub enum Contribution {
    /// Hard-sphere reference term.
    HardSphere,
    /// Reference perturbation, Barker-Henderson division.
    ReferencePerturbationBh,
    /// Attractive perturbation, Barker-Henderson division.
    AttractivePerturbationBh,
    /// Reference perturbation, Weeks-Chandler-Andersen division.
    ReferencePerturbationWca,
    /// Attractive perturbation, Weeks-Chandler-Andersen division.
    AttractivePerturbationWca,
}

/// Mirror of [`Contribution::label`].
pub open spec fn sp_label(c: Contribution) -> Seq<char> {
    match c {
        Contribution::HardSphere => "Hard Sphere"@,
        Contribution::ReferencePerturbationBh => "Reference Perturbation"@,
        Contribution::AttractivePerturbationBh => "Attractive Perturbation"@,
        Contribution::ReferencePerturbationWca => "Reference Perturbation"@,
        Contribution::AttractivePerturbationWca => "Attractive Perturbation"@,
    }
}

impl Contribution {
    /// The contribution's display name.
    pub fn label(&self) -> (r: String)
        ensures
            r@ == sp_label(*self),
    {
        match self {
            Contribution::HardSphere => "Hard Sphere".to_string(),
            Contribution::ReferencePerturbationBh => "Reference Perturbation".to_string(),
            Contribution::AttractivePerturbationBh => "Attractive Perturbation".to_string(),
            Contribution::ReferencePerturbationWca => "Reference Perturbation".to_string(),
            Contribution::AttractivePerturbationWca => "Attractive Perturbation".to_string(),
        }
    }
}

/// The per-state values of the empirical temperature correlations that the
/// contributions consume: effective reference diameters, shape diameters,
/// and the A- and B-form packing-fraction transforms of the chosen division.
#[derive(Clone, Debug)]
pub struct Correlations<S: Scalar> {
    /// Per-component effective hard-sphere diameter at the state's
    /// temperature.
    pub d: Vec<S>,
    /// Per-component shape diameter at the state's temperature.
    pub q: Vec<S>,
    /// A-form transformed packing fractions, pairwise.
    pub eta_a: Vec<Vec<S>>,
    /// B-form transformed packing fractions, pairwise.
    pub eta_b: Vec<Vec<S>>,
    /// The fitted constant set of the Barker-Henderson attractive term,
    /// consumed only by that contribution.
    pub attractive_bh: AttractiveConstants<S>,
}

impl<S: Scalar> Correlations<S> {
    /// Shape of the correlation values for a mixture of `n` components.
    pub open spec fn wf(self, n: nat) -> bool {
        &&& self.d@.len() == n
        &&& self.q@.len() == n
        &&& square_matrix(self.eta_a@, n)
        &&& square_matrix(self.eta_b@, n)
    }
}

/// Mirror of one contribution's output at a state.
pub open spec fn sp_contribution_energy<S: Scalar>(
    c: Contribution,
    p: UVParameters<S>,
    state: State<S>,
    corr: Correlations<S>,
) -> S {
    match c {
        Contribution::HardSphere => sp_hard_sphere_helmholtz(state, corr.d@),
        Contribution::ReferencePerturbationBh => sp_ref_bh_helmholtz(
            p,
            state,
            corr.d@,
            corr.eta_a@,
            corr.eta_b@,
        ),
        Contribution::AttractivePerturbationBh => sp_attractive_helmholtz(
            p,
            state,
            corr.d@,
            corr.q@,
            corr.attractive_bh,
        ),
        Contribution::ReferencePerturbationWca => sp_ref_wca_helmholtz(
            p,
            state,
            corr.d@,
            corr.q@,
            corr.eta_a@,
            corr.eta_b@,
        ),
        Contribution::AttractivePerturbationWca => sp_attractive_wca_helmholtz(
            p,
            state,
            corr.d@,
            corr.q@,
        ),
    }
}

/// One contribution's output at a state, dispatched over the closed variant
/// set.
pub fn contribution_energy<S: Scalar>(
    c: Contribution,
    p: &UVParameters<S>,
    state: &State<S>,
    corr: &Correlations<S>,
) -> (r: S)
    requires
        p.wf(),
        state.wf(),
        state.n() == p.n(),
        corr.wf(p.n()),
    ensures
        r == sp_contribution_energy(c, *p, *state, *corr),
{
    match c {
        Contribution::HardSphere => hard_sphere_energy(state, &corr.d),
        Contribution::ReferencePerturbationBh => reference_bh_energy(
            p,
            state,
            &corr.d,
            &corr.eta_a,
            &corr.eta_b,
        ),
        Contribution::AttractivePerturbationBh => attractive_bh_energy(
            p,
            state,
            &corr.d,
            &corr.q,
            corr.attractive_bh,
        ),
        Contribution::ReferencePerturbationWca => reference_wca_energy(
            p,
            state,
            &corr.d,
            &corr.q,
            &corr.eta_a,
            &corr.eta_b,
        ),
        Contribution::AttractivePerturbationWca => attractive_wca_energy(
            p,
            state,
            &corr.d,
            &corr.q,
        ),
    }
}

/// The ordered contribution list of a dividing scheme.
pub open spec fn sp_scheme_contributions(perturbation: Perturbation) -> Seq<Contribution> {
    match perturbation {
        Perturbation::BarkerHenderson => seq![
            Contribution::HardSphere,
            Contribution::ReferencePerturbationBh,
            Contribution::AttractivePerturbationBh,
        ],
        Perturbation::WeeksChandlerAndersen => seq![
            Contribution::HardSphere,
            Contribution::ReferencePerturbationWca,
            Contribution::AttractivePerturbationWca,
        ],
    }
}

/// The top-level equation-of-state object: the parameter set, the options,
/// and the scheme's ordered contribution list, all immutable after
/// construction.
#[derive(Clone, Debug)]
pub struct UVTheory<S: Scalar> {
    /// The shared, read-only parameter set.
    pub parameters: UVParameters<S>,
    /// The configuration the scheme was built with.
    pub options: UVTheoryOptions<S>,
    /// The ordered contribution list of the chosen scheme.
    pub contributions: Vec<Contribution>,
}

impl<S: Scalar> UVTheory<S> {
    /// A well-formed scheme: a well-formed parameter set and the
    /// contribution list of the chosen division.
    pub open spec fn wf(self) -> bool {
        &&& self.parameters.wf()
        &&& self.contributions@ == sp_scheme_contributions(self.options.perturbation)
    }

    /// Builds a scheme with the given options.
    pub fn with_options(parameters: UVParameters<S>, options: UVTheoryOptions<S>) -> (r: Self)
        requires
            parameters.wf(),
        ensures
            r.wf(),
            r.parameters == parameters,
            r.options == options,
    {
        let mut contributions: Vec<Contribution> = Vec::new();
        match options.perturbation {
            Perturbation::BarkerHenderson => {
                contributions.push(Contribution::HardSphere);
                contributions.push(Contribution::ReferencePerturbationBh);
                contributions.push(Contribution::AttractivePerturbationBh);
            },
            Perturbation::WeeksChandlerAndersen => {
                contributions.push(Contribution::HardSphere);
                contributions.push(Contribution::ReferencePerturbationWca);
                contributions.push(Contribution::AttractivePerturbationWca);
            },
        }
        proof {
            assert(contributions@ =~= sp_scheme_contributions(options.perturbation));
        }
        UVTheory { parameters, options, contributions }
    }

    /// Builds a scheme with the default options.
    pub fn new(parameters: UVParameters<S>) -> (r: Self)
        requires
            parameters.wf(),
        ensures
            r.wf(),
            r.parameters == parameters,
            r.options.max_eta == S::sp_from_ratio(1i64, 2i64),
            r.options.perturbation == Perturbation::WeeksChandlerAndersen,
    {
        Self::with_options(parameters, UVTheoryOptions::default())
    }

    /// Number of components.
    pub fn components(&self) -> (r: usize)
        requires
            self.wf(),
        ensures
            r == self.parameters.n(),
    {
        self.parameters.ncomponents
    }

    /// The ordered contribution list.
    pub fn residual(&self) -> (r: &Vec<Contribution>)
        ensures
            r == &self.contributions,
    {
        &self.contributions
    }

    /// A scheme over the chosen components, in the given order, with the
    /// same options.  The pairwise matrices are recombined over the subset.
    pub fn subset(&self, component_list: &Vec<usize>) -> (r: Result<Self, ParameterError>)
        requires
            self.wf(),
            forall|m: int|
                0 <= m < component_list@.len() ==> #[trigger] component_list@[m]
                    < self.parameters.n(),
        ensures
            r is Ok <==> sp_records_valid(self.parameters.picked_records(component_list@)),
            r is Ok ==> r->Ok_0.wf() && r->Ok_0.options == self.options
                && r->Ok_0.parameters.combined_from(
                self.parameters.picked_records(component_list@),
                Seq::new(
                    component_list@.len(),
                    |i: int| Seq::new(component_list@.len(), |j: int| S::sp_zero()),
                ),
            ),
    {
        let p = self.parameters.subset(component_list)?;
        Ok(Self::with_options(p, self.options))
    }

    /// The density bound external solvers bracket volumes with: the maximum
    /// packing fraction times the total moles, over the pi-over-six-weighted
    /// sum of cubed sizes times moles.
    pub fn compute_max_density(&self, moles: &Vec<S>) -> (r: S)
        requires
            self.wf(),
            moles@.len() == self.parameters.n(),
        ensures
            r == self.options.max_eta.sp_times(sp_sum(moles@)).sp_div(
                sum_upto(
                    self.parameters.n(),
                    |i: int| S::sp_pi().sp_div(S::sp_from_ratio(6i64, 1i64)).sp_times(
                        sp_powi(self.parameters.sigma@[i], 3),
                    ).sp_times(moles@[i]),
                ),
            ),
    {
        let numerator = self.options.max_eta.times(sum(moles));
        let mut denominator = S::zero();
        let mut i: usize = 0;
        while i < self.parameters.ncomponents
            invariant
                self.wf(),
                i <= self.parameters.n(),
                moles@.len() == self.parameters.n(),
                denominator == sum_upto(
                    i as nat,
                    |m: int| S::sp_pi().sp_div(S::sp_from_ratio(6i64, 1i64)).sp_times(
                        sp_powi(self.parameters.sigma@[m], 3),
                    ).sp_times(moles@[m]),
                ),
            decreases self.parameters.ncomponents - i,
        {
            denominator = denominator.plus(
                S::pi().div(S::from_ratio(6, 1)).times(powi(self.parameters.sigma[i], 3)).times(
                    moles[i],
                ),
            );
            i = i + 1;
        }
        numerator.div(denominator)
    }

    /// Mirror of [`UVTheory::residual_helmholtz_energy`]: the left-to-right
    /// sum of the contributions' outputs.
    pub open spec fn sp_residual_helmholtz(self, state: State<S>, corr: Correlations<S>) -> S {
        sum_upto(
            self.contributions@.len(),
            |i: int| sp_contribution_energy(self.contributions@[i], self.parameters, state, corr),
        )
    }

    /// Total residual Helmholtz energy, over the thermal energy: the sum of
    /// each contribution's output at the same state, with the correlation
    /// values for that state supplied by the caller.
    pub fn residual_helmholtz_energy(&self, state: &State<S>, corr: &Correlations<S>) -> (r: S)
        requires
            self.wf(),
            state.wf(),
            state.n() == self.parameters.n(),
            corr.wf(self.parameters.n()),
        ensures
            r == self.sp_residual_helmholtz(*state, *corr),
    {
        let mut acc = S::zero();
        let mut i: usize = 0;
        while i < self.contributions.len()
            invariant
                self.wf(),
                state.wf(),
                state.n() == self.parameters.n(),
                corr.wf(self.parameters.n()),
                i <= self.contributions@.len(),
                acc == sum_upto(
                    i as nat,
                    |m: int| sp_contribution_energy(
                        self.contributions@[m],
                        self.parameters,
                        *state,
                        *corr,
                    ),
                ),
            decreases self.contributions@.len() - i,
        {
            acc = acc.plus(contribution_energy(self.contributions[i], &self.parameters, state, corr));
            i = i + 1;
        }
        acc
    }
}

} // verus!
