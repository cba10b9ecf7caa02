//! Extraction of the three sparse constraint matrices from a recorded
//! system.  Extraction resolves every variable of every linear combination
//! to its column in the witness vector `z = instance ++ witness` and
//! finalizes the system: row order is constraint insertion order, and the
//! common reference string derived later is tied to these exact positions.

use vstd::prelude::*;
use crate::field::{Felt, p, fp_mul, lemma_val_injective};
use crate::lc::{Variable, column_of, var_in_range, terms_wf, eval_terms};
use crate::system::{Constraint, ConstraintSystem, SystemMode, satisfied_with};
use crate::error::R1csError;

verus! {

/// One row of a sparse matrix: ordered (coefficient, column) entries.
pub type SparseRow = Vec<(Felt, usize)>;

/// The three sparse matrices of a finalized system, over columns of the
/// witness vector.
#[derive(Clone, Debug)]
pub struct SparseMatrices {
    pub a: Vec<SparseRow>,
    pub b: Vec<SparseRow>,
    pub c: Vec<SparseRow>,
    pub num_instance: usize,
    pub num_witness: usize,
}

/// The integer sum of a sparse row against the witness vector `z`.
pub open spec fn eval_row(row: Seq<(Felt, usize)>, z: Seq<Felt>) -> int
    decreases row.len(),
{
    if row.len() == 0 {
        0
    } else {
        row[0].0.val() * z[row[0].1 as int].val() + eval_row(row.drop_first(), z)
    }
}

/// Every entry of the row has a reduced coefficient and a column below
/// `ncols`.
pub open spec fn row_wf(row: Seq<(Felt, usize)>, ncols: int) -> bool {
    forall|i: int| 0 <= i < row.len() ==> (#[trigger] row[i]).0.wf() && row[i].1 < ncols
}

/// A term list with every variable resolved to its column.
pub open spec fn resolve_terms(ts: Seq<(Felt, Variable)>, ni: int) -> Seq<(Felt, usize)> {
    ts.map(|i: int, t: (Felt, Variable)| (t.0, column_of(t.1, ni) as usize))
}

impl SparseMatrices {
    /// The shared column count of the three matrices: the length of `z`.
    pub open spec fn num_cols(self) -> int {
        self.num_instance + self.num_witness
    }

    /// Shape invariant: the three matrices have the same row count, and
    /// every entry points below the shared column count.
    pub open spec fn wf(self) -> bool {
        &&& self.a@.len() == self.b@.len()
        &&& self.b@.len() == self.c@.len()
        &&& self.num_instance >= 1
        &&& self.num_instance + self.num_witness <= usize::MAX
        &&& forall|i: int| 0 <= i < self.a@.len() ==> row_wf((#[trigger] self.a@[i])@, self.num_cols())
        &&& forall|i: int| 0 <= i < self.b@.len() ==> row_wf((#[trigger] self.b@[i])@, self.num_cols())
        &&& forall|i: int| 0 <= i < self.c@.len() ==> row_wf((#[trigger] self.c@[i])@, self.num_cols())
    }

    /// Row `i` holds of `z`: `(a_i . z) * (b_i . z) == (c_i . z)` modulo
    /// the prime.
    pub open spec fn row_holds(self, i: int, z: Seq<Felt>) -> bool {
        ((eval_row(self.a@[i]@, z) % p()) * (eval_row(self.b@[i]@, z) % p())) % p()
            == eval_row(self.c@[i]@, z) % p()
    }

    /// Every row holds of `z`.
    pub open spec fn satisfied_by(self, z: Seq<Felt>) -> bool {
        forall|i: int| 0 <= i < self.a@.len() ==> self.row_holds(i, z)
    }
}

/// The matrices are the resolved image of the given constraints.
pub open spec fn extracted_from(m: SparseMatrices, cs: Seq<Constraint>, ni: int, nw: int) -> bool {
    &&& m.num_instance == ni
    &&& m.num_witness == nw
    &&& m.a@.len() == cs.len()
    &&& m.b@.len() == cs.len()
    &&& m.c@.len() == cs.len()
    &&& forall|i: int| 0 <= i < cs.len()
        ==> (#[trigger] m.a@[i])@ == resolve_terms(cs[i].a.terms@, ni)
    &&& forall|i: int| 0 <= i < cs.len()
        ==> (#[trigger] m.b@[i])@ == resolve_terms(cs[i].b.terms@, ni)
    &&& forall|i: int| 0 <= i < cs.len()
        ==> (#[trigger] m.c@[i])@ == resolve_terms(cs[i].c.terms@, ni)
}

/// Resolving the variables of a term list does not change its sum.
pub proof fn lemma_resolve_eval(ts: Seq<(Felt, Variable)>, z: Seq<Felt>, ni: int, nw: int)
    requires
        terms_wf(ts, ni, nw),
        0 <= ni,
        0 <= nw,
        ni + nw <= usize::MAX,
        z.len() == ni + nw,
    ensures
        eval_row(resolve_terms(ts, ni), z) == eval_terms(ts, z, ni),
    decreases ts.len(),
{
    if ts.len() == 0 {
        assert(resolve_terms(ts, ni).len() == 0);
    } else {
        assert(resolve_terms(ts, ni).drop_first() =~= resolve_terms(ts.drop_first(), ni));
        assert(var_in_range(ts[0].1, ni, nw));
        lemma_resolve_eval(ts.drop_first(), z, ni, nw);
        let rs = resolve_terms(ts, ni);
        assert(0 <= column_of(ts[0].1, ni) < ni + nw);
        assert(rs[0] == (ts[0].0, column_of(ts[0].1, ni) as usize));
        assert(rs[0].1 as int == column_of(ts[0].1, ni));
        assert(eval_row(rs, z)
            == rs[0].0.val() * z[rs[0].1 as int].val() + eval_row(rs.drop_first(), z));
        assert(eval_terms(ts, z, ni)
            == ts[0].0.val() * z[column_of(ts[0].1, ni)].val()
                + eval_terms(ts.drop_first(), z, ni));
    }
}

/// A system's constraints hold of `z` exactly when the extracted rows do.
pub proof fn lemma_extraction_preserves_satisfaction(
    m: SparseMatrices,
    cs: Seq<Constraint>,
    z: Seq<Felt>,
    ni: int,
    nw: int,
)
    requires
        extracted_from(m, cs, ni, nw),
        forall|i: int| 0 <= i < cs.len() ==> (#[trigger] cs[i]).wf(ni, nw),
        0 <= ni,
        0 <= nw,
        ni + nw <= usize::MAX,
        z.len() == ni + nw,
    ensures
        m.satisfied_by(z) <==> satisfied_with(cs, z, ni),
{
    assert forall|i: int| 0 <= i < cs.len() implies
        (m.row_holds(i, z) <==> crate::system::constraint_holds(#[trigger] cs[i], z, ni)) by {
        lemma_resolve_eval(cs[i].a.terms@, z, ni, nw);
        lemma_resolve_eval(cs[i].b.terms@, z, ni, nw);
        lemma_resolve_eval(cs[i].c.terms@, z, ni, nw);
    }
}

/// Resolves one term list into a sparse row.
fn resolve_row(ts: &Vec<(Felt, Variable)>, ni: usize, nw: usize) -> (r: SparseRow)
    requires
        terms_wf(ts@, ni as int, nw as int),
        ni + nw <= usize::MAX,
    ensures
        r@ == resolve_terms(ts@, ni as int),
{
    let mut row: SparseRow = Vec::new();
    let mut i: usize = 0;
    while i < ts.len()
        invariant
            i <= ts@.len(),
            terms_wf(ts@, ni as int, nw as int),
            ni + nw <= usize::MAX,
            row@.len() == i,
            forall|k: int| 0 <= k < i
                ==> #[trigger] row@[k] == (ts@[k].0, column_of(ts@[k].1, ni as int) as usize),
        decreases ts@.len() - i,
    {
        let (coeff, v) = ts[i];
        proof {
            assert(var_in_range(ts@[i as int].1, ni as int, nw as int));
        }
        let col: usize = match v {
            Variable::Constant => 0,
            Variable::PublicInput(k) => k,
            Variable::Witness(j) => ni + j,
        };
        row.push((coeff, col));
        i = i + 1;
    }
    proof {
        assert(row@ =~= resolve_terms(ts@, ni as int));
    }
    row
}

impl ConstraintSystem {
    /// Converts the recorded constraints into the three sparse matrices
    /// over the concrete witness vector and finalizes the system.  Fails
    /// with `AllocationError` on an already finalized system and with
    /// `MatrixExtractionError` when no constraint has been recorded; the
    /// system is unchanged on failure.
    pub fn extract_matrices(&mut self) -> (r: Result<SparseMatrices, R1csError>)
        requires
            old(self).wf(),
        ensures
            final(self).wf(),
            old(self).mode == SystemMode::Finalized ==> {
                &&& r == Err::<SparseMatrices, R1csError>(R1csError::AllocationError)
                &&& *final(self) == *old(self)
            },
            old(self).mode == SystemMode::Recording && old(self).constraints@.len() == 0 ==> {
                &&& r == Err::<SparseMatrices, R1csError>(R1csError::MatrixExtractionError)
                &&& *final(self) == *old(self)
            },
            old(self).mode == SystemMode::Recording && old(self).constraints@.len() > 0 ==> {
                &&& r.is_ok()
                &&& final(self).mode == SystemMode::Finalized
                &&& final(self).constraints@ == old(self).constraints@
                &&& final(self).instance@ == old(self).instance@
                &&& final(self).witness@ == old(self).witness@
                &&& r matches Ok(m) ==> {
                    &&& m.wf()
                    &&& extracted_from(m, old(self).constraints@, old(self).ni(), old(self).nw())
                    &&& m.a@.len() == old(self).constraints@.len()
                }
            },
    {
        match self.mode {
            SystemMode::Finalized => Err(R1csError::AllocationError),
            SystemMode::Recording => {
                if self.constraints.len() == 0 {
                    return Err(R1csError::MatrixExtractionError);
                }
                let ni = self.instance.len();
                let nw = self.witness.len();
                let mut a: Vec<SparseRow> = Vec::new();
                let mut b: Vec<SparseRow> = Vec::new();
                let mut c: Vec<SparseRow> = Vec::new();
                let mut i: usize = 0;
                while i < self.constraints.len()
                    invariant
                        self.wf(),
                        i <= self.constraints@.len(),
                        ni == self.ni(),
                        nw == self.nw(),
                        a@.len() == i,
                        b@.len() == i,
                        c@.len() == i,
                        forall|k: int| 0 <= k < i ==> (#[trigger] a@[k])@
                            == resolve_terms(self.constraints@[k].a.terms@, ni as int),
                        forall|k: int| 0 <= k < i ==> (#[trigger] b@[k])@
                            == resolve_terms(self.constraints@[k].b.terms@, ni as int),
                        forall|k: int| 0 <= k < i ==> (#[trigger] c@[k])@
                            == resolve_terms(self.constraints@[k].c.terms@, ni as int),
                    decreases self.constraints@.len() - i,
                {
                    a.push(resolve_row(&self.constraints[i].a.terms, ni, nw));
                    b.push(resolve_row(&self.constraints[i].b.terms, ni, nw));
                    c.push(resolve_row(&self.constraints[i].c.terms, ni, nw));
                    i = i + 1;
                }
                let m = SparseMatrices { a, b, c, num_instance: ni, num_witness: nw };
                proof {
                    assert forall|k: int, j: int|
                        0 <= k < m.a@.len() && 0 <= j < (#[trigger] m.a@[k])@.len()
                        implies (#[trigger] m.a@[k]@[j]).0.wf() && m.a@[k]@[j].1 < m.num_cols() by {
                        assert(var_in_range(self.constraints@[k].a.terms@[j].1, ni as int, nw as int));
                    }
                    assert forall|k: int, j: int|
                        0 <= k < m.b@.len() && 0 <= j < (#[trigger] m.b@[k])@.len()
                        implies (#[trigger] m.b@[k]@[j]).0.wf() && m.b@[k]@[j].1 < m.num_cols() by {
                        assert(var_in_range(self.constraints@[k].b.terms@[j].1, ni as int, nw as int));
                    }
                    assert forall|k: int, j: int|
                        0 <= k < m.c@.len() && 0 <= j < (#[trigger] m.c@[k])@.len()
                        implies (#[trigger] m.c@[k]@[j]).0.wf() && m.c@[k]@[j].1 < m.num_cols() by {
                        assert(var_in_range(self.constraints@[k].c.terms@[j].1, ni as int, nw as int));
                    }
                }
                self.mode = SystemMode::Finalized;
                Ok(m)
            },
        }
    }
}

/// Evaluates one sparse row with the executable field operations.
pub fn eval_row_exec(row: &SparseRow, z: &Vec<Felt>) -> (r: Felt)
    requires
        row_wf(row@, z@.len() as int),
        forall|i: int| 0 <= i < z@.len() ==> (#[trigger] z@[i]).wf(),
    ensures
        r.wf(),
        r.val() == eval_row(row@, z@) % p(),
{
    let mut acc = Felt::zero();
    let mut i: usize = 0;
    while i < row.len()
        invariant
            i <= row@.len(),
            row_wf(row@, z@.len() as int),
            forall|j: int| 0 <= j < z@.len() ==> (#[trigger] z@[j]).wf(),
            acc.wf(),
            acc.val() == eval_row(row@.take(i as int), z@) % p(),
        decreases row@.len() - i,
    {
        let (coeff, col) = row[i];
        let prod = fp_mul(&coeff, &z[col]);
        proof {
            assert(row@.take(i + 1) =~= row@.take(i as int).push(row@[i as int]));
            lemma_eval_row_push(row@.take(i as int), row@[i as int], z@);
            let e = eval_row(row@.take(i as int), z@);
            let t = coeff.val() * z@[col as int].val();
            vstd::arithmetic::div_mod::lemma_add_mod_noop(e, t, p());
        }
        acc = crate::field::fp_add(&acc, &prod);
        i = i + 1;
    }
    proof {
        assert(row@.take(row@.len() as int) =~= row@);
    }
    acc
}

/// Appending one entry adds its contribution to the row sum.
pub proof fn lemma_eval_row_push(row: Seq<(Felt, usize)>, t: (Felt, usize), z: Seq<Felt>)
    ensures
        eval_row(row.push(t), z) == eval_row(row, z) + t.0.val() * z[t.1 as int].val(),
    decreases row.len(),
{
    if row.len() == 0 {
        assert(row.push(t).drop_first() =~= Seq::<(Felt, usize)>::empty());
        assert(row.push(t)[0] == t);
        assert(eval_row(row.push(t).drop_first(), z) == 0);
        assert(eval_row(row.push(t), z) == t.0.val() * z[t.1 as int].val());
    } else {
        assert(row.push(t).drop_first() =~= row.drop_first().push(t));
        lemma_eval_row_push(row.drop_first(), t, z);
        assert(row.push(t)[0] == row[0]);
        assert(eval_row(row.push(t), z)
            == row[0].0.val() * z[row[0].1 as int].val()
                + eval_row(row.drop_first().push(t), z));
    }
}

/// Whether every row of the matrices holds of the witness vector `z`.
pub fn matrices_satisfied(m: &SparseMatrices, z: &Vec<Felt>) -> (r: bool)
    requires
        m.wf(),
        z@.len() == m.num_cols(),
        forall|i: int| 0 <= i < z@.len() ==> (#[trigger] z@[i]).wf(),
    ensures
        r == m.satisfied_by(z@),
{
    let mut i: usize = 0;
    while i < m.a.len()
        invariant
            m.wf(),
            i <= m.a@.len(),
            z@.len() == m.num_cols(),
            forall|j: int| 0 <= j < z@.len() ==> (#[trigger] z@[j]).wf(),
            forall|j: int| 0 <= j < i ==> m.row_holds(j, z@),
        decreases m.a@.len() - i,
    {
        let ea = eval_row_exec(&m.a[i], z);
        let eb = eval_row_exec(&m.b[i], z);
        let ec = eval_row_exec(&m.c[i], z);
        let prod = fp_mul(&ea, &eb);
        proof {
            lemma_val_injective(prod, ec);
        }
        if !(prod == ec) {
            proof {
                assert(!m.row_holds(i as int, z@));
            }
            return false;
        }
        i = i + 1;
    }
    true
}

} // verus!
