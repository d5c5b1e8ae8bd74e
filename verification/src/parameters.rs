//! Per-component Mie parameters and the pairwise-combined matrices.
//!
//! A record holds the four scalars of one component: repulsive exponent,
//! attractive exponent, size and energy.  A parameter set combines every
//! ordered pair through the theory's mixing rules — geometric means for the
//! exponents and the energy, the arithmetic mean for the size, a cube-weighted
//! size correction and an optional binary correction on the energy — and is
//! validated at construction: sizes and energies must be positive and every
//! pairwise attractive exponent must be positive and below its repulsive
//! counterpart.  The pairwise size and shape mixing rules are provisional
//! pending validation against the published theory.

use vstd::prelude::*;

use crate::scalar::{sp_powi, powi, Scalar};

verus! {

/// The four Mie parameters of one component.
#[derive(Copy, Clone, Debug)]
pub struct UVRecord<S: Scalar> {
    /// Repulsive exponent.
    pub rep: S,
    /// Attractive exponent.
    pub att: S,
    /// Size parameter, the zero of the pair potential.
    pub sigma: S,
    /// Energy parameter, the potential depth over the Boltzmann constant.
    pub epsilon_k: S,
}

impl<S: Scalar> UVRecord<S> {
    pub fn new(rep: S, att: S, sigma: S, epsilon_k: S) -> (r: Self)
        ensures
            r.rep == rep,
            r.att == att,
            r.sigma == sigma,
            r.epsilon_k == epsilon_k,
    {
        UVRecord { rep, att, sigma, epsilon_k }
    }
}

/// A structured configuration error raised by parameter-set construction.
/// Construction never lets invalid parameters through to the formulas.
#[derive(Copy, Clone, Debug, PartialEq, Eq, Structural)]
pub enum ParameterError {
    /// The size parameter of the named component is not positive.
    NonPositiveSize { component: usize },
    /// The energy parameter of the named component is not positive.
    NonPositiveEnergy { component: usize },
    /// The attractive exponent of the named component is not positive.
    NonPositiveAttraction { component: usize },
    /// The attractive exponent of the named component does not lie below its
    /// repulsive exponent.
    ExponentOrder { component: usize },
    /// The combined attractive exponent of the named pair is not positive.
    NonPositivePairAttraction { i: usize, j: usize },
    /// The combined attractive exponent of the named pair does not lie below
    /// the combined repulsive exponent.
    PairExponentOrder { i: usize, j: usize },
}

/// Pairwise repulsive or attractive exponent: the geometric mean.
pub open spec fn sp_exponent_ij<S: Scalar>(a: S, b: S) -> S {
    a.sp_times(b).sp_sqrt()
}

/// Pairwise size: the arithmetic mean.
pub open spec fn sp_sigma_ij<S: Scalar>(a: S, b: S) -> S {
    a.sp_plus(b).sp_div(S::sp_one().sp_plus(S::sp_one()))
}

/// Pairwise energy: the geometric mean, weighted by the pair's cubed sizes
/// against the cubed combined size, and scaled by the binary correction.
pub open spec fn sp_eps_k_ij<S: Scalar>(ri: UVRecord<S>, rj: UVRecord<S>, k: S) -> S {
    S::sp_one().sp_minus(k).sp_times(
        sp_powi(ri.sigma, 3).sp_times(sp_powi(rj.sigma, 3)).sp_sqrt().sp_div(
            sp_powi(sp_sigma_ij(ri.sigma, rj.sigma), 3),
        ),
    ).sp_times(ri.epsilon_k.sp_times(rj.epsilon_k).sp_sqrt())
}

/// Validity of a parameter set: positive sizes and energies, and for every
/// pair a positive combined attractive exponent lying strictly below the
/// combined repulsive exponent.
pub open spec fn sp_records_valid<S: Scalar>(records: Seq<UVRecord<S>>) -> bool {
    &&& (forall|i: int|
        0 <= i < records.len() ==> #[trigger] S::sp_zero().sp_lt(records[i].sigma))
    &&& (forall|i: int|
        0 <= i < records.len() ==> #[trigger] S::sp_zero().sp_lt(records[i].epsilon_k))
    &&& (forall|i: int|
        0 <= i < records.len() ==> #[trigger] S::sp_zero().sp_lt(records[i].att))
    &&& (forall|i: int|
        0 <= i < records.len() ==> #[trigger] records[i].att.sp_lt(records[i].rep))
    &&& (forall|i: int, j: int|
        0 <= i < records.len() && 0 <= j < records.len() ==> #[trigger] S::sp_zero().sp_lt(
            sp_exponent_ij(records[i].att, records[j].att),
        ))
    &&& (forall|i: int, j: int|
        0 <= i < records.len() && 0 <= j < records.len() ==> #[trigger] sp_exponent_ij(
            records[i].att,
            records[j].att,
        ).sp_lt(sp_exponent_ij(records[i].rep, records[j].rep)))
}

/// The parameter store: per-component values and the pairwise-combined
/// matrices.  Immutable after construction; every formula reads it only.
#[derive(Clone, Debug)]
pub struct UVParameters<S: Scalar> {
    /// Number of components.
    pub ncomponents: usize,
    /// Per-component repulsive exponents.
    pub rep: Vec<S>,
    /// Per-component attractive exponents.
    pub att: Vec<S>,
    /// Per-component sizes.
    pub sigma: Vec<S>,
    /// Per-component energies.
    pub epsilon_k: Vec<S>,
    /// Pairwise combined repulsive exponents.
    pub rep_ij: Vec<Vec<S>>,
    /// Pairwise combined attractive exponents.
    pub att_ij: Vec<Vec<S>>,
    /// Pairwise combined sizes.
    pub sigma_ij: Vec<Vec<S>>,
    /// Pairwise combined energies.
    pub eps_k_ij: Vec<Vec<S>>,
}

impl<S: Scalar> UVParameters<S> {
    /// Number of components.
    pub open spec fn n(self) -> nat {
        self.rep@.len()
    }

    /// Shape of the store: every per-component vector has one entry per
    /// component and every matrix is square of the same order.
    pub open spec fn wf(self) -> bool {
        &&& self.ncomponents == self.n()
        &&& self.att@.len() == self.n()
        &&& self.sigma@.len() == self.n()
        &&& self.epsilon_k@.len() == self.n()
        &&& square_matrix(self.rep_ij@, self.n())
        &&& square_matrix(self.att_ij@, self.n())
        &&& square_matrix(self.sigma_ij@, self.n())
        &&& square_matrix(self.eps_k_ij@, self.n())
    }

    /// The store holds exactly the given records, combined with the given
    /// binary correction matrix.
    pub open spec fn combined_from(self, records: Seq<UVRecord<S>>, k: Seq<Seq<S>>) -> bool {
        &&& self.n() == records.len()
        &&& (forall|i: int|
            0 <= i < records.len() ==> #[trigger] self.rep@[i] == records[i].rep)
        &&& (forall|i: int|
            0 <= i < records.len() ==> #[trigger] self.att@[i] == records[i].att)
        &&& (forall|i: int|
            0 <= i < records.len() ==> #[trigger] self.sigma@[i] == records[i].sigma)
        &&& (forall|i: int|
            0 <= i < records.len() ==> #[trigger] self.epsilon_k@[i] == records[i].epsilon_k)
        &&& (forall|i: int, j: int|
            0 <= i < records.len() && 0 <= j < records.len() ==> #[trigger] self.rep_ij@[i]@[j]
                == sp_exponent_ij(records[i].rep, records[j].rep))
        &&& (forall|i: int, j: int|
            0 <= i < records.len() && 0 <= j < records.len() ==> #[trigger] self.att_ij@[i]@[j]
                == sp_exponent_ij(records[i].att, records[j].att))
        &&& (forall|i: int, j: int|
            0 <= i < records.len() && 0 <= j < records.len() ==> #[trigger] self.sigma_ij@[i]@[j]
                == sp_sigma_ij(records[i].sigma, records[j].sigma))
        &&& (forall|i: int, j: int|
            0 <= i < records.len() && 0 <= j < records.len() ==> #[trigger] self.eps_k_ij@[i]@[j]
                == sp_eps_k_ij(records[i], records[j], k[i][j]))
    }

    /// Builds and validates a parameter set with a binary energy correction.
    ///
    /// Succeeds exactly on valid records: positive sizes and energies, and
    /// every combined attractive exponent positive and strictly below its
    /// repulsive counterpart.
    pub fn new_with_binary(records: Vec<UVRecord<S>>, k: Vec<Vec<S>>) -> (r: Result<
        Self,
        ParameterError,
    >)
        requires
            square_matrix(k@, records@.len()),
        ensures
            r is Ok <==> sp_records_valid(records@),
            r is Ok ==> r->Ok_0.wf() && r->Ok_0.combined_from(records@, k@.map_values(|v: Vec<S>| v@)),
            r is Err ==> sp_error_witness(records@, r->Err_0),
    {
        let n = records.len();
        let mut i: usize = 0;
        while i < n
            invariant
                i <= n,
                n == records@.len(),
                forall|m: int| 0 <= m < i ==> #[trigger] S::sp_zero().sp_lt(records@[m].sigma),
                forall|m: int| 0 <= m < i ==> #[trigger] S::sp_zero().sp_lt(records@[m].epsilon_k),
                forall|m: int| 0 <= m < i ==> #[trigger] S::sp_zero().sp_lt(records@[m].att),
                forall|m: int| 0 <= m < i ==> #[trigger] records@[m].att.sp_lt(records@[m].rep),
            decreases n - i,
        {
            if !S::zero().lt(records[i].sigma) {
                return Err(ParameterError::NonPositiveSize { component: i });
            }
            if !S::zero().lt(records[i].epsilon_k) {
                return Err(ParameterError::NonPositiveEnergy { component: i });
            }
            if !S::zero().lt(records[i].att) {
                return Err(ParameterError::NonPositiveAttraction { component: i });
            }
            if !records[i].att.lt(records[i].rep) {
                return Err(ParameterError::ExponentOrder { component: i });
            }
            i = i + 1;
        }
        let rep = column(&records, 0);
        let att = column(&records, 1);
        let sigma = column(&records, 2);
        let epsilon_k = column(&records, 3);
        let rep_ij = geometric_matrix(&rep);
        let att_ij = geometric_matrix(&att);
        let mut i: usize = 0;
        while i < n
            invariant
                i <= n,
                n == records@.len(),
                att@.len() == n && rep@.len() == n,
                forall|m: int| 0 <= m < n ==> #[trigger] att@[m] == records@[m].att,
                forall|m: int| 0 <= m < n ==> #[trigger] rep@[m] == records@[m].rep,
                square_matrix(rep_ij@, n as nat),
                square_matrix(att_ij@, n as nat),
                forall|a: int, b: int|
                    0 <= a < n && 0 <= b < n ==> #[trigger] rep_ij@[a]@[b] == sp_exponent_ij(
                        records@[a].rep,
                        records@[b].rep,
                    ),
                forall|a: int, b: int|
                    0 <= a < n && 0 <= b < n ==> #[trigger] att_ij@[a]@[b] == sp_exponent_ij(
                        records@[a].att,
                        records@[b].att,
                    ),
                forall|a: int, b: int|
                    0 <= a < i && 0 <= b < n ==> #[trigger] S::sp_zero().sp_lt(
                        sp_exponent_ij(records@[a].att, records@[b].att),
                    ),
                forall|a: int, b: int|
                    0 <= a < i && 0 <= b < n ==> #[trigger] sp_exponent_ij(
                        records@[a].att,
                        records@[b].att,
                    ).sp_lt(sp_exponent_ij(records@[a].rep, records@[b].rep)),
            decreases n - i,
        {
            let mut j: usize = 0;
            while j < n
                invariant
                    i < n,
                    j <= n,
                    n == records@.len(),
                    square_matrix(rep_ij@, n as nat),
                    square_matrix(att_ij@, n as nat),
                    forall|a: int, b: int|
                        0 <= a < n && 0 <= b < n ==> #[trigger] rep_ij@[a]@[b] == sp_exponent_ij(
                            records@[a].rep,
                            records@[b].rep,
                        ),
                    forall|a: int, b: int|
                        0 <= a < n && 0 <= b < n ==> #[trigger] att_ij@[a]@[b] == sp_exponent_ij(
                            records@[a].att,
                            records@[b].att,
                        ),
                    forall|b: int|
                        0 <= b < j ==> #[trigger] S::sp_zero().sp_lt(
                            sp_exponent_ij(records@[i as int].att, records@[b].att),
                        ),
                    forall|b: int|
                        0 <= b < j ==> #[trigger] sp_exponent_ij(
                            records@[i as int].att,
                            records@[b].att,
                        ).sp_lt(sp_exponent_ij(records@[i as int].rep, records@[b].rep)),
                decreases n - j,
            {
                if !S::zero().lt(att_ij[i][j]) {
                    return Err(ParameterError::NonPositivePairAttraction { i, j });
                }
                if !att_ij[i][j].lt(rep_ij[i][j]) {
                    return Err(ParameterError::PairExponentOrder { i, j });
                }
                j = j + 1;
            }
            i = i + 1;
        }
        let sigma_ij = mean_matrix(&sigma);
        let eps_k_ij = energy_matrix(&records, &sigma_ij, &k);
        Ok(
            UVParameters {
                ncomponents: n,
                rep,
                att,
                sigma,
                epsilon_k,
                rep_ij,
                att_ij,
                sigma_ij,
                eps_k_ij,
            },
        )
    }

    /// Builds and validates a parameter set without binary corrections.
    pub fn new(records: Vec<UVRecord<S>>) -> (r: Result<Self, ParameterError>)
        ensures
            r is Ok <==> sp_records_valid(records@),
            r is Ok ==> r->Ok_0.wf() && r->Ok_0.combined_from(
                records@,
                Seq::new(records@.len(), |i: int| Seq::new(records@.len(), |j: int| S::sp_zero())),
            ),
            r is Err ==> sp_error_witness(records@, r->Err_0),
    {
        let k = zero_matrix(records.len());
        let ghost zk = Seq::new(
            records@.len(),
            |i: int| Seq::new(records@.len(), |j: int| S::sp_zero()),
        );
        let r = Self::new_with_binary(records, k);
        proof {
            if r is Ok {
                assert(k@.map_values(|v: Vec<S>| v@) =~~= zk);
            }
        }
        r
    }

    /// Builds and validates a one-component parameter set.
    pub fn new_pure(record: UVRecord<S>) -> (r: Result<Self, ParameterError>)
        ensures
            r is Ok <==> sp_records_valid(seq![record]),
            r is Ok ==> r->Ok_0.wf() && r->Ok_0.combined_from(
                seq![record],
                seq![seq![S::sp_zero()]],
            ),
    {
        let records = vec![record];
        assert(records@ =~= seq![record]);
        let r = Self::new(records);
        proof {
            if r is Ok {
                assert(Seq::new(1nat, |i: int| Seq::new(1nat, |j: int| S::sp_zero()))
                    =~~= seq![seq![S::sp_zero()]]);
            }
        }
        r
    }

    /// The records this set was built from, reassembled per component.
    pub fn record(&self, i: usize) -> (r: UVRecord<S>)
        requires
            self.wf(),
            i < self.n(),
        ensures
            r.rep == self.rep@[i as int],
            r.att == self.att@[i as int],
            r.sigma == self.sigma@[i as int],
            r.epsilon_k == self.epsilon_k@[i as int],
    {
        UVRecord {
            rep: self.rep[i],
            att: self.att[i],
            sigma: self.sigma[i],
            epsilon_k: self.epsilon_k[i],
        }
    }

    /// A new parameter set over the chosen components, in the given order.
    /// Pairwise matrices are recombined over the subset; the relative order
    /// of retained components is exactly the order of `component_list`.
    pub fn subset(&self, component_list: &Vec<usize>) -> (r: Result<Self, ParameterError>)
        requires
            self.wf(),
            forall|m: int| 0 <= m < component_list@.len() ==> #[trigger] component_list@[m] < self.n(),
        ensures
            r is Ok <==> sp_records_valid(self.picked_records(component_list@)),
            r is Ok ==> r->Ok_0.wf() && r->Ok_0.combined_from(
                self.picked_records(component_list@),
                Seq::new(
                    component_list@.len(),
                    |i: int| Seq::new(component_list@.len(), |j: int| S::sp_zero()),
                ),
            ),
    {
        let mut records: Vec<UVRecord<S>> = Vec::new();
        let mut m: usize = 0;
        while m < component_list.len()
            invariant
                self.wf(),
                m <= component_list@.len(),
                forall|t: int|
                    0 <= t < component_list@.len() ==> #[trigger] component_list@[t] < self.n(),
                records@.len() == m,
                forall|t: int|
                    0 <= t < m ==> #[trigger] records@[t] == self.picked_records(component_list@)[t],
            decreases component_list@.len() - m,
        {
            records.push(self.record(component_list[m]));
            proof {
                i_keep_picked(self, component_list@, records@, m as int);
            }
            m = m + 1;
        }
        proof {
            assert(records@ =~= self.picked_records(component_list@));
        }
        Self::new(records)
    }

    /// The per-component records at the picked indices, in picked order.
    pub open spec fn picked_records(self, list: Seq<usize>) -> Seq<UVRecord<S>> {
        Seq::new(
            list.len(),
            |t: int| UVRecord {
                rep: self.rep@[list[t] as int],
                att: self.att@[list[t] as int],
                sigma: self.sigma@[list[t] as int],
                epsilon_k: self.epsilon_k@[list[t] as int],
            },
        )
    }
}

proof fn i_keep_picked<S: Scalar>(
    p: &UVParameters<S>,
    list: Seq<usize>,
    records: Seq<UVRecord<S>>,
    m: int,
)
    requires
        p.wf(),
        0 <= m < list.len(),
        forall|t: int| 0 <= t < list.len() ==> #[trigger] list[t] < p.n(),
        records.len() == m + 1,
        forall|t: int| 0 <= t < m ==> #[trigger] records[t] == p.picked_records(list)[t],
        records[m].rep == p.rep@[list[m] as int],
        records[m].att == p.att@[list[m] as int],
        records[m].sigma == p.sigma@[list[m] as int],
        records[m].epsilon_k == p.epsilon_k@[list[m] as int],
    ensures
        forall|t: int| 0 <= t < m + 1 ==> #[trigger] records[t] == p.picked_records(list)[t],
{
    assert(records[m] == p.picked_records(list)[m]);
}

/// An error names a real violation in the records it was raised for.
pub open spec fn sp_error_witness<S: Scalar>(records: Seq<UVRecord<S>>, e: ParameterError) -> bool {
    match e {
        ParameterError::NonPositiveSize { component } => component < records.len() && !S::sp_zero().sp_lt(
            records[component as int].sigma,
        ),
        ParameterError::NonPositiveEnergy { component } => component < records.len()
            && !S::sp_zero().sp_lt(records[component as int].epsilon_k),
        ParameterError::NonPositiveAttraction { component } => component < records.len()
            && !S::sp_zero().sp_lt(records[component as int].att),
        ParameterError::ExponentOrder { component } => component < records.len()
            && !records[component as int].att.sp_lt(records[component as int].rep),
        ParameterError::NonPositivePairAttraction { i, j } => i < records.len() && j
            < records.len() && !S::sp_zero().sp_lt(
            sp_exponent_ij(records[i as int].att, records[j as int].att),
        ),
        ParameterError::PairExponentOrder { i, j } => i < records.len() && j < records.len()
            && !sp_exponent_ij(records[i as int].att, records[j as int].att).sp_lt(
            sp_exponent_ij(records[i as int].rep, records[j as int].rep),
        ),
    }
}

/// A sequence of rows forms a square matrix of the given order.
pub open spec fn square_matrix<T>(m: Seq<Vec<T>>, n: nat) -> bool {
    m.len() == n && forall|i: int| 0 <= i < n ==> #[trigger] m[i]@.len() == n
}

/// One per-component column of the records; the field is chosen by index so
/// a single loop serves all four.
fn column<S: Scalar>(records: &Vec<UVRecord<S>>, field: u8) -> (r: Vec<S>)
    requires
        field < 4,
    ensures
        r@.len() == records@.len(),
        field == 0 ==> forall|i: int| 0 <= i < r@.len() ==> #[trigger] r@[i] == records@[i].rep,
        field == 1 ==> forall|i: int| 0 <= i < r@.len() ==> #[trigger] r@[i] == records@[i].att,
        field == 2 ==> forall|i: int| 0 <= i < r@.len() ==> #[trigger] r@[i] == records@[i].sigma,
        field == 3 ==> forall|i: int|
            0 <= i < r@.len() ==> #[trigger] r@[i] == records@[i].epsilon_k,
    {
    let mut r: Vec<S> = Vec::new();
    let mut i: usize = 0;
    while i < records.len()
        invariant
            i <= records@.len(),
            r@.len() == i,
            field < 4,
            field == 0 ==> forall|m: int| 0 <= m < i ==> #[trigger] r@[m] == records@[m].rep,
            field == 1 ==> forall|m: int| 0 <= m < i ==> #[trigger] r@[m] == records@[m].att,
            field == 2 ==> forall|m: int| 0 <= m < i ==> #[trigger] r@[m] == records@[m].sigma,
            field == 3 ==> forall|m: int| 0 <= m < i ==> #[trigger] r@[m] == records@[m].epsilon_k,
        decreases records@.len() - i,
    {
        let rec = &records[i];
        if field == 0 {
            r.push(rec.rep);
        } else if field == 1 {
            r.push(rec.att);
        } else if field == 2 {
            r.push(rec.sigma);
        } else {
            r.push(rec.epsilon_k);
        }
        i = i + 1;
    }
    r
}

/// The square matrix of geometric means of the entries of `v`.
fn geometric_matrix<S: Scalar>(v: &Vec<S>) -> (r: Vec<Vec<S>>)
    ensures
        square_matrix(r@, v@.len()),
        forall|i: int, j: int|
            0 <= i < v@.len() && 0 <= j < v@.len() ==> #[trigger] r@[i]@[j] == sp_exponent_ij(
                v@[i],
                v@[j],
            ),
{
    let n = v.len();
    let mut r: Vec<Vec<S>> = Vec::new();
    let mut i: usize = 0;
    while i < n
        invariant
            i <= n,
            n == v@.len(),
            r@.len() == i,
            forall|a: int| 0 <= a < i ==> #[trigger] r@[a]@.len() == n,
            forall|a: int, b: int|
                0 <= a < i && 0 <= b < n ==> #[trigger] r@[a]@[b] == sp_exponent_ij(v@[a], v@[b]),
        decreases n - i,
    {
        let mut row: Vec<S> = Vec::new();
        let mut j: usize = 0;
        while j < n
            invariant
                i < n,
                j <= n,
                n == v@.len(),
                row@.len() == j,
                forall|b: int|
                    0 <= b < j ==> #[trigger] row@[b] == sp_exponent_ij(v@[i as int], v@[b]),
            decreases n - j,
        {
            row.push(v[i].times(v[j]).sqrt());
            j = j + 1;
        }
        r.push(row);
        i = i + 1;
    }
    r
}

/// The square matrix of arithmetic means of the entries of `v`.
fn mean_matrix<S: Scalar>(v: &Vec<S>) -> (r: Vec<Vec<S>>)
    ensures
        square_matrix(r@, v@.len()),
        forall|i: int, j: int|
            0 <= i < v@.len() && 0 <= j < v@.len() ==> #[trigger] r@[i]@[j] == sp_sigma_ij(
                v@[i],
                v@[j],
            ),
{
    let n = v.len();
    let two = S::one().plus(S::one());
    let mut r: Vec<Vec<S>> = Vec::new();
    let mut i: usize = 0;
    while i < n
        invariant
            i <= n,
            n == v@.len(),
            two == S::sp_one().sp_plus(S::sp_one()),
            r@.len() == i,
            forall|a: int| 0 <= a < i ==> #[trigger] r@[a]@.len() == n,
            forall|a: int, b: int|
                0 <= a < i && 0 <= b < n ==> #[trigger] r@[a]@[b] == sp_sigma_ij(v@[a], v@[b]),
        decreases n - i,
    {
        let mut row: Vec<S> = Vec::new();
        let mut j: usize = 0;
        while j < n
            invariant
                i < n,
                j <= n,
                n == v@.len(),
                two == S::sp_one().sp_plus(S::sp_one()),
                row@.len() == j,
                forall|b: int| 0 <= b < j ==> #[trigger] row@[b] == sp_sigma_ij(v@[i as int], v@[b]),
            decreases n - j,
        {
            row.push(v[i].plus(v[j]).div(two));
            j = j + 1;
        }
        r.push(row);
        i = i + 1;
    }
    r
}

/// The pairwise combined energies over the given records, combined sizes and
/// binary corrections.
fn energy_matrix<S: Scalar>(records: &Vec<UVRecord<S>>, sigma_ij: &Vec<Vec<S>>, k: &Vec<Vec<S>>) -> (r: Vec<
    Vec<S>,
>)
    requires
        square_matrix(sigma_ij@, records@.len()),
        square_matrix(k@, records@.len()),
        forall|i: int, j: int|
            0 <= i < records@.len() && 0 <= j < records@.len() ==> #[trigger] sigma_ij@[i]@[j]
                == sp_sigma_ij(records@[i].sigma, records@[j].sigma),
    ensures
        square_matrix(r@, records@.len()),
        forall|i: int, j: int|
            0 <= i < records@.len() && 0 <= j < records@.len() ==> #[trigger] r@[i]@[j]
                == sp_eps_k_ij(records@[i], records@[j], k@[i]@[j]),
{
    let n = records.len();
    let mut r: Vec<Vec<S>> = Vec::new();
    let mut i: usize = 0;
    while i < n
        invariant
            i <= n,
            n == records@.len(),
            square_matrix(sigma_ij@, n as nat),
            square_matrix(k@, n as nat),
            forall|a: int, b: int|
                0 <= a < n && 0 <= b < n ==> #[trigger] sigma_ij@[a]@[b] == sp_sigma_ij(
                    records@[a].sigma,
                    records@[b].sigma,
                ),
            r@.len() == i,
            forall|a: int| 0 <= a < i ==> #[trigger] r@[a]@.len() == n,
            forall|a: int, b: int|
                0 <= a < i && 0 <= b < n ==> #[trigger] r@[a]@[b] == sp_eps_k_ij(
                    records@[a],
                    records@[b],
                    k@[a]@[b],
                ),
        decreases n - i,
    {
        let mut row: Vec<S> = Vec::new();
        let mut j: usize = 0;
        while j < n
            invariant
                i < n,
                j <= n,
                n == records@.len(),
                square_matrix(sigma_ij@, n as nat),
                square_matrix(k@, n as nat),
                forall|a: int, b: int|
                    0 <= a < n && 0 <= b < n ==> #[trigger] sigma_ij@[a]@[b] == sp_sigma_ij(
                        records@[a].sigma,
                        records@[b].sigma,
                    ),
                row@.len() == j,
                forall|b: int|
                    0 <= b < j ==> #[trigger] row@[b] == sp_eps_k_ij(
                        records@[i as int],
                        records@[b],
                        k@[i as int]@[b],
                    ),
            decreases n - j,
        {
            let size_weight = powi(records[i].sigma, 3).times(powi(records[j].sigma, 3)).sqrt().div(
                powi(sigma_ij[i][j], 3),
            );
            let e = S::one().minus(k[i][j]).times(size_weight).times(
                records[i].epsilon_k.times(records[j].epsilon_k).sqrt(),
            );
            row.push(e);
            j = j + 1;
        }
        r.push(row);
        i = i + 1;
    }
    r
}

/// A square matrix of additive identities.
fn zero_matrix<S: Scalar>(n: usize) -> (r: Vec<Vec<S>>)
    ensures
        square_matrix(r@, n as nat),
        forall|i: int, j: int|
            0 <= i < n && 0 <= j < n ==> #[trigger] r@[i]@[j] == S::sp_zero(),
{
    let mut r: Vec<Vec<S>> = Vec::new();
    let mut i: usize = 0;
    while i < n
        invariant
            i <= n,
            r@.len() == i,
            forall|a: int| 0 <= a < i ==> #[trigger] r@[a]@.len() == n,
            forall|a: int, b: int| 0 <= a < i && 0 <= b < n ==> #[trigger] r@[a]@[b] == S::sp_zero(),
        decreases n - i,
    {
        let mut row: Vec<S> = Vec::new();
        let mut j: usize = 0;
        while j < n
            invariant
                j <= n,
                row@.len() == j,
                forall|b: int| 0 <= b < j ==> #[trigger] row@[b] == S::sp_zero(),
            decreases n - j,
        {
            row.push(S::zero());
            j = j + 1;
        }
        r.push(row);
        i = i + 1;
    }
    r
}

} // verus!
