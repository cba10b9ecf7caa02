//! The constraint system: allocation of public and witness variables,
//! recording of rank-1 constraints, and evaluation of the recorded
//! constraints against the concrete witness vector.

use vstd::prelude::*;
use crate::field::{Felt, p, fp_mul, lemma_val_injective};
use crate::lc::{Lc, Variable, eval_terms, eval_lc};
use crate::error::R1csError;

verus! {

/// A system records constraints until its matrices are extracted; it is
/// immutable afterwards.
#[derive(Clone, Copy, Debug, PartialEq, Eq, Structural)]
pub enum SystemMode {
    Recording,
    Finalized,
}

/// One rank-1 constraint: the triple (a, b, c) asserts
/// `(a . z) * (b . z) == (c . z)` over the witness vector `z`,
/// modulo the prime.
#[derive(Clone, Debug)]
pub struct Constraint {
    pub a: Lc,
    pub b: Lc,
    pub c: Lc,
}

impl Constraint {
    /// All three combinations are well-formed for the given shape.
    pub open spec fn wf(self, ni: int, nw: int) -> bool {
        self.a.wf(ni, nw) && self.b.wf(ni, nw) && self.c.wf(ni, nw)
    }
}

/// A single constraint holds of the witness vector `z` when the reduced
/// products agree: `(a . z) * (b . z) == (c . z)` modulo the prime.
pub open spec fn constraint_holds(c: Constraint, z: Seq<Felt>, ni: int) -> bool {
    ((eval_terms(c.a.terms@, z, ni) % p()) * (eval_terms(c.b.terms@, z, ni) % p())) % p()
        == eval_terms(c.c.terms@, z, ni) % p()
}

/// Every recorded constraint holds of the witness vector `z`.
pub open spec fn satisfied_with(cs: Seq<Constraint>, z: Seq<Felt>, ni: int) -> bool {
    forall|i: int| 0 <= i < cs.len() ==> constraint_holds(#[trigger] cs[i], z, ni)
}

/// The constraint system: an ordered constraint list plus the two
/// assignment vectors, entry 0 of the instance being the constant one.
#[derive(Clone, Debug)]
pub struct ConstraintSystem {
    pub constraints: Vec<Constraint>,
    pub instance: Vec<Felt>,
    pub witness: Vec<Felt>,
    pub mode: SystemMode,
}

impl ConstraintSystem {
    /// Number of instance entries (the constant included).
    pub open spec fn ni(self) -> int {
        self.instance@.len() as int
    }

    /// Number of witness entries.
    pub open spec fn nw(self) -> int {
        self.witness@.len() as int
    }

    /// The witness vector: the instance assignment followed by the
    /// witness assignment.
    pub open spec fn z_spec(self) -> Seq<Felt> {
        self.instance@ + self.witness@
    }

    /// Structural invariant: the instance starts with the constant one,
    /// every assigned value is reduced, every constraint is in range, and
    /// the witness vector's length fits the index type.
    pub open spec fn wf(self) -> bool {
        &&& self.instance@.len() >= 1
        &&& self.instance@[0].val() == 1
        &&& forall|i: int| 0 <= i < self.instance@.len() ==> (#[trigger] self.instance@[i]).wf()
        &&& forall|i: int| 0 <= i < self.witness@.len() ==> (#[trigger] self.witness@[i]).wf()
        &&& forall|i: int| 0 <= i < self.constraints@.len()
            ==> (#[trigger] self.constraints@[i]).wf(self.ni(), self.nw())
        &&& self.ni() + self.nw() <= usize::MAX
    }

    /// The recorded constraints all hold of the current assignment.
    pub open spec fn satisfied(self) -> bool {
        satisfied_with(self.constraints@, self.z_spec(), self.ni())
    }

    /// An empty system in recording mode; the instance holds the constant.
    pub fn new() -> (r: ConstraintSystem)
        ensures
            r.wf(),
            r.mode == SystemMode::Recording,
            r.constraints@.len() == 0,
            r.instance@.len() == 1,
            r.instance@[0].val() == 1,
            r.witness@.len() == 0,
    {
        let mut instance: Vec<Felt> = Vec::new();
        instance.push(Felt::one());
        ConstraintSystem {
            constraints: Vec::new(),
            instance,
            witness: Vec::new(),
            mode: SystemMode::Recording,
        }
    }

    /// Appends a public value and returns its variable.  Fails on a
    /// finalized system, or when the witness vector is at the index
    /// type's capacity.
    pub fn allocate_public(&mut self, v: Felt) -> (r: Result<Variable, R1csError>)
        requires
            old(self).wf(),
            v.wf(),
        ensures
            final(self).wf(),
            old(self).mode == SystemMode::Finalized ==> {
                &&& r == Err::<Variable, R1csError>(R1csError::AllocationError)
                &&& *final(self) == *old(self)
            },
            old(self).mode == SystemMode::Recording && old(self).ni() + old(self).nw() < usize::MAX
                ==> {
                &&& r == Ok::<Variable, R1csError>(Variable::PublicInput(old(self).instance@.len() as usize))
                &&& final(self).instance@ == old(self).instance@.push(v)
                &&& final(self).witness@ == old(self).witness@
                &&& final(self).constraints@ == old(self).constraints@
                &&& final(self).mode == old(self).mode
            },
            old(self).mode == SystemMode::Recording && old(self).ni() + old(self).nw() == usize::MAX
                ==> {
                &&& r == Err::<Variable, R1csError>(R1csError::AllocationError)
                &&& *final(self) == *old(self)
            },
    {
        match self.mode {
            SystemMode::Finalized => Err(R1csError::AllocationError),
            SystemMode::Recording => {
                if self.instance.len() == usize::MAX - self.witness.len() {
                    return Err(R1csError::AllocationError);
                }
                let k = self.instance.len();
                self.instance.push(v);
                Ok(Variable::PublicInput(k))
            },
        }
    }

    /// Appends a private value and returns its variable.  Fails on a
    /// finalized system, or when the witness vector is at the index
    /// type's capacity.
    pub fn allocate_witness(&mut self, v: Felt) -> (r: Result<Variable, R1csError>)
        requires
            old(self).wf(),
            v.wf(),
        ensures
            final(self).wf(),
            old(self).mode == SystemMode::Finalized ==> {
                &&& r == Err::<Variable, R1csError>(R1csError::AllocationError)
                &&& *final(self) == *old(self)
            },
            old(self).mode == SystemMode::Recording && old(self).ni() + old(self).nw() < usize::MAX
                ==> {
                &&& r == Ok::<Variable, R1csError>(Variable::Witness(old(self).witness@.len() as usize))
                &&& final(self).witness@ == old(self).witness@.push(v)
                &&& final(self).instance@ == old(self).instance@
                &&& final(self).constraints@ == old(self).constraints@
                &&& final(self).mode == old(self).mode
            },
            old(self).mode == SystemMode::Recording && old(self).ni() + old(self).nw() == usize::MAX
                ==> {
                &&& r == Err::<Variable, R1csError>(R1csError::AllocationError)
                &&& *final(self) == *old(self)
            },
    {
        match self.mode {
            SystemMode::Finalized => Err(R1csError::AllocationError),
            SystemMode::Recording => {
                if self.witness.len() == usize::MAX - self.instance.len() {
                    return Err(R1csError::AllocationError);
                }
                let j = self.witness.len();
                self.witness.push(v);
                Ok(Variable::Witness(j))
            },
        }
    }

    /// Appends the constraint `(a . z) * (b . z) == (c . z)`.  Fails on a
    /// finalized system.
    pub fn enforce(&mut self, a: Lc, b: Lc, c: Lc) -> (r: Result<(), R1csError>)
        requires
            old(self).wf(),
            a.wf(old(self).ni(), old(self).nw()),
            b.wf(old(self).ni(), old(self).nw()),
            c.wf(old(self).ni(), old(self).nw()),
        ensures
            final(self).wf(),
            old(self).mode == SystemMode::Finalized ==> {
                &&& r == Err::<(), R1csError>(R1csError::AllocationError)
                &&& *final(self) == *old(self)
            },
            old(self).mode == SystemMode::Recording ==> {
                &&& r == Ok::<(), R1csError>(())
                &&& final(self).constraints@ == old(self).constraints@.push(Constraint { a, b, c })
                &&& final(self).instance@ == old(self).instance@
                &&& final(self).witness@ == old(self).witness@
                &&& final(self).mode == old(self).mode
            },
    {
        match self.mode {
            SystemMode::Finalized => Err(R1csError::AllocationError),
            SystemMode::Recording => {
                self.constraints.push(Constraint { a, b, c });
                Ok(())
            },
        }
    }

    /// The concrete witness vector: the instance assignment followed by
    /// the witness assignment.
    pub fn z(&self) -> (r: Vec<Felt>)
        requires
            self.wf(),
        ensures
            r@ == self.z_spec(),
            r@.len() == self.ni() + self.nw(),
    {
        let mut z: Vec<Felt> = Vec::new();
        let mut i: usize = 0;
        while i < self.instance.len()
            invariant
                i <= self.instance@.len(),
                z@ == self.instance@.take(i as int),
            decreases self.instance@.len() - i,
        {
            z.push(self.instance[i]);
            i = i + 1;
        }
        let mut j: usize = 0;
        while j < self.witness.len()
            invariant
                j <= self.witness@.len(),
                z@ == self.instance@ + self.witness@.take(j as int),
            decreases self.witness@.len() - j,
        {
            proof {
                assert(self.instance@.take(self.instance@.len() as int) =~= self.instance@);
            }
            z.push(self.witness[j]);
            j = j + 1;
        }
        proof {
            assert(self.instance@.take(self.instance@.len() as int) =~= self.instance@);
            assert(self.witness@.take(self.witness@.len() as int) =~= self.witness@);
            assert(z@ =~= self.z_spec());
        }
        z
    }

    /// Checks every constraint against the current assignment and reports
    /// the first violated row, if any.
    pub fn check_satisfied(&self) -> (r: Result<(), R1csError>)
        requires
            self.wf(),
        ensures
            match r {
                Ok(u) => self.satisfied(),
                Err(e) => match e {
                    R1csError::UnsatisfiedConstraint(row) => {
                        &&& !self.satisfied()
                        &&& 0 <= row < self.constraints@.len()
                        &&& !constraint_holds(self.constraints@[row as int], self.z_spec(), self.ni())
                        &&& forall|j: int| 0 <= j < row
                            ==> constraint_holds(#[trigger] self.constraints@[j], self.z_spec(), self.ni())
                    },
                    _ => false,
                },
            },
    {
        let z = self.z();
        let ni = self.instance.len();
        let nw = self.witness.len();
        let mut i: usize = 0;
        while i < self.constraints.len()
            invariant
                self.wf(),
                i <= self.constraints@.len(),
                z@ == self.z_spec(),
                z@.len() == ni + nw,
                ni == self.ni(),
                nw == self.nw(),
                forall|j: int| 0 <= j < i
                    ==> constraint_holds(#[trigger] self.constraints@[j], self.z_spec(), self.ni()),
            decreases self.constraints@.len() - i,
        {
            let ea = eval_lc(&self.constraints[i].a, &z, ni, nw);
            let eb = eval_lc(&self.constraints[i].b, &z, ni, nw);
            let ec = eval_lc(&self.constraints[i].c, &z, ni, nw);
            let prod = fp_mul(&ea, &eb);
            proof {
                lemma_val_injective(prod, ec);
            }
            if !(prod == ec) {
                return Err(R1csError::UnsatisfiedConstraint(i));
            }
            i = i + 1;
        }
        Ok(())
    }

    /// Whether every recorded constraint holds of the current assignment.
    pub fn is_satisfied(&self) -> (r: bool)
        requires
            self.wf(),
        ensures
            r == self.satisfied(),
    {
        match self.check_satisfied() {
            Ok(()) => true,
            Err(_) => false,
        }
    }
}

/// Entry 0 of the witness vector of every well-formed system is the
/// field's multiplicative identity.
pub proof fn lemma_z0_is_identity(cs: ConstraintSystem)
    requires
        cs.wf(),
    ensures
        cs.z_spec().len() >= 1,
        cs.z_spec()[0].val() == 1,
{
}

} // verus!
