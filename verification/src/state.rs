//! The thermodynamic state a formula is evaluated at: temperature, volume and
//! mole numbers, with the derived partial densities and mole fractions.
//!
//! A state is created fresh per evaluation and never mutated.  The formulas
//! are total: a state with zero volume or zero total moles is representable,
//! and out-of-domain values surface through the scalar implementation rather
//! than as structured errors.

use vstd::prelude::*;

use crate::scalar::{sum_upto, Scalar};

verus! {

/// Temperature, volume and mole numbers, with derived quantities.
#[derive(Clone, Debug)]
pub struct State<S: Scalar> {
    /// Temperature.
    pub temperature: S,
    /// Volume.
    pub volume: S,
    /// Mole number of each component.
    pub moles: Vec<S>,
    /// Mole number of each component over the volume.
    pub partial_density: Vec<S>,
    /// Mole number of each component over the total moles.
    pub molefracs: Vec<S>,
}

/// Left-to-right sum of a sequence of scalars.
pub open spec fn sp_sum<S: Scalar>(v: Seq<S>) -> S {
    sum_upto(v.len(), |i: int| v[i])
}

impl<S: Scalar> State<S> {
    /// Number of components the state describes.
    pub open spec fn n(self) -> nat {
        self.moles@.len()
    }

    /// The derived vectors match the mole numbers.
    pub open spec fn wf(self) -> bool {
        &&& self.partial_density@.len() == self.n()
        &&& self.molefracs@.len() == self.n()
        &&& (forall|i: int|
            0 <= i < self.n() ==> #[trigger] self.partial_density@[i] == self.moles@[i].sp_div(
                self.volume,
            ))
        &&& (forall|i: int|
            0 <= i < self.n() ==> #[trigger] self.molefracs@[i] == self.moles@[i].sp_div(
                sp_sum(self.moles@),
            ))
    }

    /// Builds a state from temperature, volume and mole numbers, deriving
    /// partial densities and mole fractions.
    pub fn new(temperature: S, volume: S, moles: Vec<S>) -> (r: Self)
        ensures
            r.wf(),
            r.temperature == temperature,
            r.volume == volume,
            r.moles == moles,
    {
        let total = sum(&moles);
        let mut partial_density: Vec<S> = Vec::new();
        let mut molefracs: Vec<S> = Vec::new();
        let mut i: usize = 0;
        while i < moles.len()
            invariant
                i <= moles@.len(),
                total == sp_sum(moles@),
                partial_density@.len() == i,
                molefracs@.len() == i,
                forall|m: int|
                    0 <= m < i ==> #[trigger] partial_density@[m] == moles@[m].sp_div(volume),
                forall|m: int|
                    0 <= m < i ==> #[trigger] molefracs@[m] == moles@[m].sp_div(sp_sum(moles@)),
            decreases moles@.len() - i,
        {
            partial_density.push(moles[i].div(volume));
            molefracs.push(moles[i].div(total));
            i = i + 1;
        }
        State { temperature, volume, moles, partial_density, molefracs }
    }

    /// Total number of moles.
    pub fn total_moles(&self) -> (r: S)
        ensures
            r == sp_sum(self.moles@),
    {
        sum(&self.moles)
    }

    /// Total density: the sum of the partial densities.
    pub fn density(&self) -> (r: S)
        ensures
            r == sp_sum(self.partial_density@),
    {
        sum(&self.partial_density)
    }
}

/// Left-to-right sum of a vector of scalars, from the additive identity.
pub fn sum<S: Scalar>(v: &Vec<S>) -> (r: S)
    ensures
        r == sp_sum(v@),
{
    let mut acc = S::zero();
    let mut i: usize = 0;
    while i < v.len()
        invariant
            i <= v@.len(),
            acc == sum_upto(i as nat, |m: int| v@[m]),
        decreases v@.len() - i,
    {
        acc = acc.plus(v[i]);
        i = i + 1;
    }
    proof {
        assert(sum_upto(v@.len(), |m: int| v@[m]) == sp_sum(v@));
    }
    acc
}

} // verus!
