//! Variables and linear combinations: the symbolic algebra that constraints
//! are recorded in.  A linear combination is a list of (coefficient,
//! variable) terms; its value against a witness vector is the sum of each
//! coefficient times the entry the variable resolves to, taken modulo the
//! prime.

use vstd::prelude::*;
use crate::field::{Felt, p, fp_add, fp_mul};

verus! {

/// A variable of the constraint system.  `Constant` is the fixed entry 0 of
/// the witness vector; `PublicInput(k)` is entry `k` of the instance
/// assignment (`k >= 1`, since entry 0 is the constant); `Witness(j)` is
/// entry `j` of the witness assignment.
#[derive(Clone, Copy, Debug, PartialEq, Eq, Structural)]
pub enum Variable {
    Constant,
    PublicInput(usize),
    Witness(usize),
}

/// The column of the witness vector `z = instance ++ witness` that a
/// variable resolves to, for an instance assignment of length `ni`.
pub open spec fn column_of(v: Variable, ni: int) -> int {
    match v {
        Variable::Constant => 0,
        Variable::PublicInput(k) => k as int,
        Variable::Witness(j) => ni + j,
    }
}

/// A variable is in range for `ni` public entries and `nw` witness entries.
pub open spec fn var_in_range(v: Variable, ni: int, nw: int) -> bool {
    match v {
        Variable::Constant => ni >= 1,
        Variable::PublicInput(k) => 1 <= k < ni,
        Variable::Witness(j) => 0 <= j < nw,
    }
}

/// A linear combination: a weighted sum of variables, kept as ordered
/// (coefficient, variable) terms.  Duplicate variables are summed when the
/// combination is evaluated; zero coefficients are not pruned.
#[derive(Clone, Debug, PartialEq, Eq)]
pub struct Lc {
    pub terms: Vec<(Felt, Variable)>,
}

/// The integer sum of a term list against the witness vector `z`, with
/// `ni` instance entries: each term contributes its coefficient times the
/// entry its variable resolves to.  The sum is not yet reduced; constraint
/// satisfaction compares it modulo the prime.
pub open spec fn eval_terms(ts: Seq<(Felt, Variable)>, z: Seq<Felt>, ni: int) -> int
    decreases ts.len(),
{
    if ts.len() == 0 {
        0
    } else {
        ts[0].0.val() * z[column_of(ts[0].1, ni)].val() + eval_terms(ts.drop_first(), z, ni)
    }
}

/// Every term of the list has a reduced coefficient and an in-range variable.
pub open spec fn terms_wf(ts: Seq<(Felt, Variable)>, ni: int, nw: int) -> bool {
    forall|i: int| 0 <= i < ts.len() ==> (#[trigger] ts[i]).0.wf() && var_in_range(ts[i].1, ni, nw)
}

impl Lc {
    /// Well-formed for a system with `ni` instance and `nw` witness entries.
    pub open spec fn wf(self, ni: int, nw: int) -> bool {
        terms_wf(self.terms@, ni, nw)
    }

    /// The empty combination, which evaluates to zero.
    pub fn new() -> (r: Lc)
        ensures
            r.terms@ == Seq::<(Felt, Variable)>::empty(),
    {
        Lc { terms: Vec::new() }
    }

    /// The combination `1 * v`.
    pub fn mul_variable(v: Variable) -> (r: Lc)
        ensures
            r.terms@.len() == 1,
            r.terms@[0].0.val() == 1,
            r.terms@[0].0.wf(),
            r.terms@[0].1 == v,
    {
        let one = Felt::one();
        let mut terms: Vec<(Felt, Variable)> = Vec::new();
        terms.push((one, v));
        Lc { terms }
    }

    /// A copy with every coefficient scaled by `k` (modulo the prime);
    /// the variables and their order are unchanged.
    pub fn scale(&self, k: &Felt) -> (r: Lc)
        requires
            k.wf(),
            forall|i: int| 0 <= i < self.terms@.len() ==> (#[trigger] self.terms@[i]).0.wf(),
        ensures
            r.terms@.len() == self.terms@.len(),
            forall|i: int| 0 <= i < r.terms@.len() ==> {
                &&& (#[trigger] r.terms@[i]).1 == self.terms@[i].1
                &&& r.terms@[i].0.wf()
                &&& r.terms@[i].0.val() == (k.val() * self.terms@[i].0.val()) % p()
            },
    {
        let mut terms: Vec<(Felt, Variable)> = Vec::new();
        let mut i: usize = 0;
        while i < self.terms.len()
            invariant
                i <= self.terms@.len(),
                k.wf(),
                forall|j: int| 0 <= j < self.terms@.len() ==> (#[trigger] self.terms@[j]).0.wf(),
                terms@.len() == i,
                forall|j: int| 0 <= j < i ==> {
                    &&& (#[trigger] terms@[j]).1 == self.terms@[j].1
                    &&& terms@[j].0.wf()
                    &&& terms@[j].0.val() == (k.val() * self.terms@[j].0.val()) % p()
                },
            decreases self.terms@.len() - i,
        {
            let (c, v) = self.terms[i];
            terms.push((fp_mul(k, &c), v));
            i = i + 1;
        }
        Lc { terms }
    }

    /// The combination of two combinations: their term lists joined.  A
    /// variable both sides mention contributes the sum of its coefficients
    /// when the result is evaluated.
    pub fn add(&self, other: &Lc) -> (r: Lc)
        ensures
            r.terms@ == self.terms@ + other.terms@,
            forall|z: Seq<Felt>, ni: int|
                #[trigger] eval_terms(r.terms@, z, ni)
                    == eval_terms(self.terms@, z, ni) + eval_terms(other.terms@, z, ni),
    {
        let mut terms: Vec<(Felt, Variable)> = Vec::new();
        let mut i: usize = 0;
        while i < self.terms.len()
            invariant
                i <= self.terms@.len(),
                terms@ == self.terms@.take(i as int),
            decreases self.terms@.len() - i,
        {
            terms.push(self.terms[i]);
            i = i + 1;
        }
        let mut j: usize = 0;
        while j < other.terms.len()
            invariant
                j <= other.terms@.len(),
                terms@ == self.terms@ + other.terms@.take(j as int),
            decreases other.terms@.len() - j,
        {
            terms.push(other.terms[j]);
            j = j + 1;
        }
        proof {
            assert(terms@ =~= self.terms@ + other.terms@);
            assert forall|z: Seq<Felt>, ni: int|
                #[trigger] eval_terms(terms@, z, ni)
                    == eval_terms(self.terms@, z, ni) + eval_terms(other.terms@, z, ni) by {
                lemma_eval_append(self.terms@, other.terms@, z, ni);
            }
        }
        Lc { terms }
    }
}

/// Appending one term adds its contribution to the sum.
pub proof fn lemma_eval_push(ts: Seq<(Felt, Variable)>, t: (Felt, Variable), z: Seq<Felt>, ni: int)
    ensures
        eval_terms(ts.push(t), z, ni)
            == eval_terms(ts, z, ni) + t.0.val() * z[column_of(t.1, ni)].val(),
    decreases ts.len(),
{
    if ts.len() == 0 {
        assert(ts.push(t).drop_first() =~= Seq::<(Felt, Variable)>::empty());
        assert(ts.push(t)[0] == t);
        assert(eval_terms(ts.push(t).drop_first(), z, ni) == 0);
        assert(eval_terms(ts.push(t), z, ni) == t.0.val() * z[column_of(t.1, ni)].val());
    } else {
        assert(ts.push(t).drop_first() =~= ts.drop_first().push(t));
        lemma_eval_push(ts.drop_first(), t, z, ni);
        assert(ts.push(t)[0] == ts[0]);
        assert(eval_terms(ts.push(t), z, ni)
            == ts[0].0.val() * z[column_of(ts[0].1, ni)].val()
                + eval_terms(ts.drop_first().push(t), z, ni));
    }
}

/// Joining two term lists adds their sums.
pub proof fn lemma_eval_append(a: Seq<(Felt, Variable)>, b: Seq<(Felt, Variable)>, z: Seq<Felt>, ni: int)
    ensures
        eval_terms(a + b, z, ni) == eval_terms(a, z, ni) + eval_terms(b, z, ni),
    decreases b.len(),
{
    if b.len() == 0 {
        assert(a + b =~= a);
    } else {
        let b0 = b.drop_last();
        lemma_eval_append(a, b0, z, ni);
        assert(a + b =~= (a + b0).push(b.last()));
        assert(b =~= b0.push(b.last()));
        lemma_eval_push(a + b0, b.last(), z, ni);
        lemma_eval_push(b0, b.last(), z, ni);
    }
}

/// Evaluating a combination with the executable field operations.  The
/// result is the reduced sum of the terms against `z`.
pub fn eval_lc(lc: &Lc, z: &Vec<Felt>, ni: usize, nw: usize) -> (r: Felt)
    requires
        lc.wf(ni as int, nw as int),
        z@.len() == ni + nw,
        forall|i: int| 0 <= i < z@.len() ==> (#[trigger] z@[i]).wf(),
    ensures
        r.wf(),
        r.val() == eval_terms(lc.terms@, z@, ni as int) % p(),
{
    let mut acc = Felt::zero();
    let mut i: usize = 0;
    while i < lc.terms.len()
        invariant
            i <= lc.terms@.len(),
            lc.wf(ni as int, nw as int),
            z@.len() == ni + nw,
            forall|j: int| 0 <= j < z@.len() ==> (#[trigger] z@[j]).wf(),
            acc.wf(),
            acc.val() == eval_terms(lc.terms@.take(i as int), z@, ni as int) % p(),
        decreases lc.terms@.len() - i,
    {
        let (c, v) = lc.terms[i];
        let n = z.len();
        let col: usize = match v {
            Variable::Constant => 0,
            Variable::PublicInput(k) => k,
            Variable::Witness(j) => {
                proof {
                    assert(ni + j < n);
                }
                ni + j
            },
        };
        let prod = fp_mul(&c, &z[col]);
        proof {
            assert(lc.terms@.take(i + 1) =~= lc.terms@.take(i as int).push(lc.terms@[i as int]));
            lemma_eval_push(lc.terms@.take(i as int), lc.terms@[i as int], z@, ni as int);
            let e = eval_terms(lc.terms@.take(i as int), z@, ni as int);
            let t = c.val() * z@[column_of(v, ni as int)].val();
            vstd::arithmetic::div_mod::lemma_add_mod_noop(e, t, p());
            vstd::arithmetic::div_mod::lemma_mod_twice(t, p());
            vstd::arithmetic::div_mod::lemma_mod_twice(e + t, p());
        }
        acc = fp_add(&acc, &prod);
        i = i + 1;
    }
    proof {
        assert(lc.terms@.take(lc.terms@.len() as int) =~= lc.terms@);
    }
    acc
}

} // verus!
