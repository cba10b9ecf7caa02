//! Circuit synthesis: the capability a relation implements to record its
//! constraints, the example cube relation `x^3 + x + 5 == y`, and the
//! proofs that the recorded system is satisfied exactly by the honest
//! assignment.

use vstd::prelude::*;
use vstd::arithmetic::div_mod::{
    lemma_fundamental_div_mod, lemma_mod_multiples_vanish, lemma_mod_add_multiples_vanish,
    lemma_small_mod, lemma_mul_mod_noop_left,
};
use crate::field::{Felt, p, fp_add, fp_mul, fp_sub, lemma_val_injective};
use crate::lc::{Lc, Variable, column_of, eval_terms};
use crate::system::{Constraint, ConstraintSystem, SystemMode, constraint_holds, satisfied_with};
use crate::error::R1csError;

verus! {

/// The circuit capability: a relation records its full constraint set into
/// the builder, once per system.
pub trait Circuit {
    /// The relation's own values are in a usable state.
    spec fn wf(&self) -> bool;

    /// Records the relation's variables and constraints.  A finalized
    /// system accepts no recording: the builder's first refusal is
    /// surfaced unchanged.
    fn synthesize(&self, cs: &mut ConstraintSystem) -> (r: Result<(), R1csError>)
        requires
            self.wf(),
            old(cs).wf(),
        ensures
            final(cs).wf(),
            old(cs).mode == SystemMode::Finalized ==> {
                &&& r == Err::<(), R1csError>(R1csError::AllocationError)
                &&& *final(cs) == *old(cs)
            },
        ;
}

/// Builds a fresh constraint system and lets the circuit record itself.
pub fn build<C: Circuit>(circuit: &C) -> (r: Result<ConstraintSystem, R1csError>)
    requires
        circuit.wf(),
    ensures
        r matches Ok(cs) ==> cs.wf(),
{
    let mut cs = ConstraintSystem::new();
    match circuit.synthesize(&mut cs) {
        Ok(()) => Ok(cs),
        Err(e) => Err(e),
    }
}

/// The example relation: the prover knows `x` with `x^3 + x + 5 == y`,
/// `y` public.
#[derive(Clone, Debug)]
pub struct CubeCircuit {
    /// The private input (witness).
    pub x: Felt,
    /// The public input, `x^3 + x + 5`.
    pub y: Felt,
}

/// The value of the public relation on `xv`: `xv^3 + xv + 5`, reduced.
pub open spec fn cube_relation_spec(xv: int) -> int {
    (xv * xv * xv + xv + 5) % p()
}

/// Computes the public relation `x^3 + x + 5` with the field operations.
pub fn cube_relation(x: &Felt) -> (y: Felt)
    requires
        x.wf(),
    ensures
        y.wf(),
        y.val() == cube_relation_spec(x.val()),
{
    let x2 = fp_mul(x, x);
    let x3 = fp_mul(&x2, x);
    let t = fp_add(&x3, x);
    let y = fp_add(&t, &Felt::from_u64(5));
    proof {
        let a = x.val();
        lemma_mul_mod_noop_left(a * a, a, p());
        lemma_small_mod(a as nat, p() as nat);
        lemma_fundamental_div_mod(a * a * a, p());
        let q2 = (a * a * a) / p();
        assert(x3.val() == a * a * a - p() * q2);
        assert(t.val() == (a * a * a - p() * q2 + a) % p());
        lemma_mod_multiples_vanish(-q2, a * a * a + a, p());
        assert(t.val() == (a * a * a + a) % p());
        lemma_fundamental_div_mod(a * a * a + a, p());
        let q3 = (a * a * a + a) / p();
        assert(y.val() == (a * a * a + a - p() * q3 + 5) % p());
        lemma_mod_multiples_vanish(-q3, a * a * a + a + 5, p());
    }
    y
}

/// A combination of exactly one term with the given coefficient value.
pub open spec fn single_term(lc: Lc, cval: int, v: Variable) -> bool {
    &&& lc.terms@.len() == 1
    &&& lc.terms@[0].0.wf()
    &&& lc.terms@[0].0.val() == cval
    &&& lc.terms@[0].1 == v
}

/// Row 0 of the cube system: `x * x == x2`.
pub open spec fn cube_constraint_0(c: Constraint) -> bool {
    &&& single_term(c.a, 1, Variable::Witness(0))
    &&& single_term(c.b, 1, Variable::Witness(0))
    &&& single_term(c.c, 1, Variable::Witness(1))
}

/// Row 1 of the cube system: `x2 * x == x3`.
pub open spec fn cube_constraint_1(c: Constraint) -> bool {
    &&& single_term(c.a, 1, Variable::Witness(1))
    &&& single_term(c.b, 1, Variable::Witness(0))
    &&& single_term(c.c, 1, Variable::Witness(2))
}

/// Row 2 of the cube system: `(5 - y + x + x3) * 1 == 0`.
pub open spec fn cube_constraint_2(c: Constraint) -> bool {
    &&& c.a.terms@.len() == 4
    &&& c.a.terms@[0].0.wf() && c.a.terms@[0].0.val() == 5 && c.a.terms@[0].1 == Variable::Constant
    &&& c.a.terms@[1].0.wf() && c.a.terms@[1].0.val() == p() - 1
        && c.a.terms@[1].1 == Variable::PublicInput(1)
    &&& c.a.terms@[2].0.wf() && c.a.terms@[2].0.val() == 1 && c.a.terms@[2].1 == Variable::Witness(0)
    &&& c.a.terms@[3].0.wf() && c.a.terms@[3].0.val() == 1 && c.a.terms@[3].1 == Variable::Witness(2)
    &&& single_term(c.b, 1, Variable::Constant)
    &&& c.c.terms@.len() == 0
}

/// The exact shape and assignment the cube circuit records from a fresh
/// system: `z = [1, y, x, x^2, x^3]` and the three rows above.
pub open spec fn is_cube_system(cs: ConstraintSystem, x: Felt, y: Felt) -> bool {
    &&& cs.instance@.len() == 2
    &&& cs.witness@.len() == 3
    &&& cs.instance@[0].val() == 1
    &&& cs.instance@[1] == y
    &&& cs.witness@[0] == x
    &&& cs.witness@[1].val() == (x.val() * x.val()) % p()
    &&& cs.witness@[2].val() == (((x.val() * x.val()) % p()) * x.val()) % p()
    &&& cs.constraints@.len() == 3
    &&& cube_constraint_0(cs.constraints@[0])
    &&& cube_constraint_1(cs.constraints@[1])
    &&& cube_constraint_2(cs.constraints@[2])
}

impl CubeCircuit {
    /// Records the cube relation into the builder: allocates the public
    /// `y`, the witness `x`, the intermediate witnesses `x^2` and `x^3`,
    /// and the three constraints.  The first refusal of the builder (a
    /// finalized system, or an exhausted index range) is surfaced
    /// unchanged as `AllocationError`; on a fresh system the recorded
    /// shape is exactly `is_cube_system`.
    pub fn synthesize_cube(&self, cs: &mut ConstraintSystem) -> (r: Result<(), R1csError>)
        requires
            self.x.wf(),
            self.y.wf(),
            old(cs).wf(),
        ensures
            final(cs).wf(),
            old(cs).mode == SystemMode::Finalized ==> {
                &&& r == Err::<(), R1csError>(R1csError::AllocationError)
                &&& *final(cs) == *old(cs)
            },
            (old(cs).mode == SystemMode::Recording
                && old(cs).ni() + old(cs).nw() <= usize::MAX - 4) ==> {
                &&& r == Ok::<(), R1csError>(())
                &&& final(cs).mode == SystemMode::Recording
            },
            (old(cs).mode == SystemMode::Recording
                && old(cs).ni() + old(cs).nw() > usize::MAX - 4)
                ==> r == Err::<(), R1csError>(R1csError::AllocationError),
            (old(cs).mode == SystemMode::Recording && old(cs).constraints@.len() == 0
                && old(cs).instance@.len() == 1 && old(cs).witness@.len() == 0) ==> {
                &&& r == Ok::<(), R1csError>(())
                &&& final(cs).mode == SystemMode::Recording
                &&& is_cube_system(*final(cs), self.x, self.y)
            },
    {
        let vy = match cs.allocate_public(self.y) {
            Ok(v) => v,
            Err(e) => { return Err(e); },
        };
        let x2 = fp_mul(&self.x, &self.x);
        let x3 = fp_mul(&x2, &self.x);
        let vx = match cs.allocate_witness(self.x) {
            Ok(v) => v,
            Err(e) => { return Err(e); },
        };
        let vx2 = match cs.allocate_witness(x2) {
            Ok(v) => v,
            Err(e) => { return Err(e); },
        };
        let vx3 = match cs.allocate_witness(x3) {
            Ok(v) => v,
            Err(e) => { return Err(e); },
        };
        match cs.enforce(Lc::mul_variable(vx), Lc::mul_variable(vx), Lc::mul_variable(vx2)) {
            Ok(()) => {},
            Err(e) => { return Err(e); },
        }
        match cs.enforce(Lc::mul_variable(vx2), Lc::mul_variable(vx), Lc::mul_variable(vx3)) {
            Ok(()) => {},
            Err(e) => { return Err(e); },
        }
        let five = Felt::from_u64(5);
        let neg_one = fp_sub(&Felt::zero(), &Felt::one());
        proof {
            lemma_small_mod(5nat, p() as nat);
            lemma_mod_add_multiples_vanish(-1, p());
            lemma_small_mod((p() - 1) as nat, p() as nat);
        }
        let lc5 = Lc::mul_variable(Variable::Constant).scale(&five);
        let lcy = Lc::mul_variable(vy).scale(&neg_one);
        let a2 = lc5.add(&lcy).add(&Lc::mul_variable(vx)).add(&Lc::mul_variable(vx3));
        match cs.enforce(a2, Lc::mul_variable(Variable::Constant), Lc::new()) {
            Ok(()) => {},
            Err(e) => { return Err(e); },
        }
        Ok(())
    }
}

impl Circuit for CubeCircuit {
    open spec fn wf(&self) -> bool {
        self.x.wf() && self.y.wf()
    }

    fn synthesize(&self, cs: &mut ConstraintSystem) -> (r: Result<(), R1csError>) {
        self.synthesize_cube(cs)
    }
}

/// Builds the cube relation's system from a fresh builder.  When the
/// public value is the relation of the private one, the system is
/// satisfied: this holds for every field value of `x`.
pub fn build_cube(circuit: &CubeCircuit) -> (cs: ConstraintSystem)
    requires
        circuit.x.wf(),
        circuit.y.wf(),
    ensures
        cs.wf(),
        cs.mode == SystemMode::Recording,
        is_cube_system(cs, circuit.x, circuit.y),
        circuit.y.val() == cube_relation_spec(circuit.x.val()) ==> cs.satisfied(),
{
    let mut cs = ConstraintSystem::new();
    match circuit.synthesize_cube(&mut cs) {
        Ok(()) => {},
        Err(_) => { proof { assert(false); } },
    }
    proof {
        if circuit.y.val() == cube_relation_spec(circuit.x.val()) {
            lemma_cube_system_satisfied(cs, circuit.x, circuit.y);
        }
    }
    cs
}

/// The sum of a one-term combination.
proof fn lemma_eval_single(lc: Lc, z: Seq<Felt>, ni: int)
    requires
        lc.terms@.len() == 1,
    ensures
        eval_terms(lc.terms@, z, ni)
            == lc.terms@[0].0.val() * z[column_of(lc.terms@[0].1, ni)].val(),
{
    assert(eval_terms(lc.terms@.drop_first(), z, ni) == 0);
}

/// The three sums of the third cube row, over any five-entry vector.
proof fn lemma_cube_c2_evals(c: Constraint, z: Seq<Felt>)
    requires
        cube_constraint_2(c),
        z.len() == 5,
    ensures
        eval_terms(c.a.terms@, z, 2)
            == 5 * z[0].val() + (p() - 1) * z[1].val() + z[2].val() + z[4].val(),
        eval_terms(c.b.terms@, z, 2) == z[0].val(),
        eval_terms(c.c.terms@, z, 2) == 0,
{
    let ts = c.a.terms@;
    let ts1 = ts.drop_first();
    let ts2 = ts1.drop_first();
    let ts3 = ts2.drop_first();
    let ts4 = ts3.drop_first();
    assert(ts4.len() == 0);
    assert(eval_terms(ts4, z, 2) == 0);
    assert(ts3[0] == ts[3]);
    assert(eval_terms(ts3, z, 2) == z[4].val());
    assert(ts2[0] == ts[2]);
    assert(eval_terms(ts2, z, 2) == z[2].val() + z[4].val());
    assert(ts1[0] == ts[1]);
    assert(eval_terms(ts1, z, 2) == (p() - 1) * z[1].val() + z[2].val() + z[4].val());
    lemma_eval_single(c.b, z, 2);
    assert(eval_terms(c.c.terms@, z, 2) == 0);
}

/// A difference of two distinct reduced values is never a multiple of the
/// modulus.
proof fn lemma_distinct_mod(u: int, v: int, m: int)
    requires
        0 <= u < m,
        0 <= v < m,
        u != v,
    ensures
        (u - v) % m != 0,
{
    if u > v {
        lemma_small_mod((u - v) as nat, m as nat);
    } else {
        lemma_mod_add_multiples_vanish(u - v, m);
        lemma_small_mod((u - v + m) as nat, m as nat);
    }
}

/// The witness vector of the cube system and its entries.
proof fn lemma_cube_z(cs: ConstraintSystem, x: Felt, y: Felt)
    requires
        is_cube_system(cs, x, y),
    ensures
        cs.z_spec().len() == 5,
        cs.ni() == 2,
        cs.z_spec()[0].val() == 1,
        cs.z_spec()[1] == y,
        cs.z_spec()[2] == x,
        cs.z_spec()[3].val() == (x.val() * x.val()) % p(),
        cs.z_spec()[4].val() == (((x.val() * x.val()) % p()) * x.val()) % p(),
{
}

/// The honest assignment satisfies the cube system, for every field value
/// of `x`: `build_cube` followed by the satisfaction check returns true.
pub proof fn lemma_cube_system_satisfied(cs: ConstraintSystem, x: Felt, y: Felt)
    requires
        cs.wf(),
        is_cube_system(cs, x, y),
        x.wf(),
        y.wf(),
        y.val() == cube_relation_spec(x.val()),
    ensures
        cs.satisfied(),
{
    lemma_cube_z(cs, x, y);
    let z = cs.z_spec();
    let a = x.val();
    let yv = y.val();
    let x2v = z[3].val();
    let x3v = z[4].val();
    lemma_small_mod(a as nat, p() as nat);
    lemma_small_mod(x2v as nat, p() as nat);
    lemma_small_mod(x3v as nat, p() as nat);
    lemma_small_mod(1nat, p() as nat);
    // Row 0: (x * x) mod p == x2.
    let c0 = cs.constraints@[0];
    lemma_eval_single(c0.a, z, 2);
    lemma_eval_single(c0.b, z, 2);
    lemma_eval_single(c0.c, z, 2);
    assert(eval_terms(c0.a.terms@, z, 2) == a);
    assert(eval_terms(c0.b.terms@, z, 2) == a);
    assert(eval_terms(c0.c.terms@, z, 2) == x2v);
    assert(constraint_holds(c0, z, 2));
    // Row 1: (x2 * x) mod p == x3.
    let c1 = cs.constraints@[1];
    lemma_eval_single(c1.a, z, 2);
    lemma_eval_single(c1.b, z, 2);
    lemma_eval_single(c1.c, z, 2);
    assert(eval_terms(c1.a.terms@, z, 2) == x2v);
    assert(constraint_holds(c1, z, 2));
    // Row 2: 5 - y + x + x3 vanishes mod p.
    let c2 = cs.constraints@[2];
    lemma_cube_c2_evals(c2, z);
    let s = 5 + (p() - 1) * yv + a + x3v;
    assert(eval_terms(c2.a.terms@, z, 2) == 5 * 1 + (p() - 1) * yv + a + x3v);
    lemma_cube_row2_mod(a, yv, x3v, yv, a);
    lemma_small_mod(0nat, p() as nat);
    assert(s % p() == 0);
    assert(((s % p()) * (1int % p())) % p() == 0int % p()) by {
        lemma_small_mod(0nat, p() as nat);
        lemma_small_mod(1nat, p() as nat);
    }
    assert(constraint_holds(c2, z, 2));
    assert forall|i: int| 0 <= i < cs.constraints@.len()
        implies constraint_holds(#[trigger] cs.constraints@[i], z, 2) by {
        if i == 0 {
        } else if i == 1 {
        } else {
            assert(i == 2);
        }
    }
}

/// The reduced sum of row 2 of the cube system, over arbitrary values
/// `u` and `v` in the columns of `y` and `x`: the sum is congruent to how
/// far `u` and `v` stray from the honest `yv` and `a`.
proof fn lemma_cube_row2_mod(a: int, yv: int, x3v: int, u: int, v: int)
    requires
        yv == (a * a * a + a + 5) % p(),
        x3v == ((a * a % p()) * a) % p(),
    ensures
        (5 + (p() - 1) * u + v + x3v) % p() == (yv - a + v - u) % p(),
{
    lemma_mul_mod_noop_left(a * a, a, p());
    assert(x3v == (a * a * a) % p());
    lemma_fundamental_div_mod(a * a * a, p());
    let q2 = (a * a * a) / p();
    assert(x3v == a * a * a - p() * q2);
    lemma_fundamental_div_mod(a * a * a + a + 5, p());
    let q1 = (a * a * a + a + 5) / p();
    assert(yv == a * a * a + a + 5 - p() * q1);
    let s = 5 + (p() - 1) * u + v + x3v;
    let k = u + q1 - q2;
    let d = yv - a + v - u;
    assert((p() - 1) * u == p() * u - u) by (nonlinear_arith);
    assert(p() * (u + q1 - q2) == p() * u + p() * q1 - p() * q2) by (nonlinear_arith);
    assert(s == p() * k + d);
    lemma_mod_multiples_vanish(k, d, p());
}

/// Row 2 evaluated with arbitrary values `u`, `v` in the columns of `y`
/// and `x` is violated whenever they stray from the honest assignment by
/// an amount that is nonzero mod p.
proof fn lemma_cube_row2_violation(a: int, yv: int, x3v: int, u: int, v: int)
    requires
        yv == (a * a * a + a + 5) % p(),
        x3v == ((a * a % p()) * a) % p(),
        (yv - a + v - u) % p() != 0,
    ensures
        (((5 + (p() - 1) * u + v + x3v) % p()) * (1int % p())) % p() != 0int % p(),
{
    let d = yv - a + v - u;
    lemma_cube_row2_mod(a, yv, x3v, u, v);
    lemma_small_mod(0nat, p() as nat);
    lemma_small_mod(1nat, p() as nat);
    vstd::arithmetic::div_mod::lemma_mod_bound(d, p());
    lemma_small_mod((d % p()) as nat, p() as nat);
    assert((((5 + (p() - 1) * u + v + x3v) % p()) * (1int % p())) % p() == (d % p()) % p());
}

/// Flipping the public entry or the raw witness entry shifts the linear
/// row 2 by a difference that is nonzero mod p.
#[verifier::rlimit(60)]
proof fn lemma_cube_flip_row2(cs: ConstraintSystem, x: Felt, y: Felt, i: int, t: Felt)
    requires
        cs.wf(),
        is_cube_system(cs, x, y),
        x.wf(),
        y.wf(),
        y.val() == cube_relation_spec(x.val()),
        i == 1 || i == 2,
        t.wf(),
        t != cs.z_spec()[i],
    ensures
        !satisfied_with(cs.constraints@, cs.z_spec().update(i, t), cs.ni()),
{
    lemma_cube_z(cs, x, y);
    let z = cs.z_spec();
    let zf = z.update(i, t);
    let a = x.val();
    let yv = y.val();
    let x3v = z[4].val();
    let tv = t.val();
    lemma_small_mod(1nat, p() as nat);
    let c2 = cs.constraints@[2];
    lemma_cube_c2_evals(c2, zf);
    assert(eval_terms(c2.a.terms@, zf, 2) == 5 * zf[0].val() + (p() - 1) * zf[1].val()
        + zf[2].val() + zf[4].val());
    assert(zf[0].val() == 1);
    assert(zf[4].val() == x3v);
    if i == 1 {
        assert(zf[1].val() == tv && zf[2].val() == a);
        lemma_val_injective(t, y);
        lemma_distinct_mod(yv, tv, p());
        lemma_cube_row2_violation(a, yv, x3v, tv, a);
    } else {
        assert(zf[1].val() == yv && zf[2].val() == tv);
        lemma_val_injective(t, x);
        lemma_distinct_mod(tv, a, p());
        lemma_cube_row2_violation(a, yv, x3v, yv, tv);
    }
    assert(eval_terms(c2.b.terms@, zf, 2) == 1);
    assert(eval_terms(c2.c.terms@, zf, 2) == 0);
    assert(!constraint_holds(c2, zf, 2));
    assert(!satisfied_with(cs.constraints@, zf, 2));
}

/// Flipping an intermediate square entry violates the row that pins it to
/// a product of the untouched entries.
#[verifier::rlimit(60)]
proof fn lemma_cube_flip_square(cs: ConstraintSystem, x: Felt, y: Felt, i: int, t: Felt)
    requires
        cs.wf(),
        is_cube_system(cs, x, y),
        x.wf(),
        y.wf(),
        i == 3 || i == 4,
        t.wf(),
        t != cs.z_spec()[i],
    ensures
        !satisfied_with(cs.constraints@, cs.z_spec().update(i, t), cs.ni()),
{
    lemma_cube_z(cs, x, y);
    let z = cs.z_spec();
    let zf = z.update(i, t);
    let a = x.val();
    let x2v = z[3].val();
    let x3v = z[4].val();
    let tv = t.val();
    lemma_small_mod(a as nat, p() as nat);
    lemma_small_mod(x2v as nat, p() as nat);
    lemma_small_mod(x3v as nat, p() as nat);
    lemma_small_mod(tv as nat, p() as nat);
    if i == 3 {
        // Row 0 pins entry 3 to (x * x) mod p.
        let c0 = cs.constraints@[0];
        lemma_eval_single(c0.a, zf, 2);
        lemma_eval_single(c0.b, zf, 2);
        lemma_eval_single(c0.c, zf, 2);
        assert(eval_terms(c0.a.terms@, zf, 2) == a);
        assert(eval_terms(c0.b.terms@, zf, 2) == a);
        assert(eval_terms(c0.c.terms@, zf, 2) == tv);
        lemma_val_injective(t, z[3]);
        assert(tv != x2v);
        assert(!constraint_holds(c0, zf, 2));
        assert(!satisfied_with(cs.constraints@, zf, 2));
    } else {
        // Row 1 pins entry 4 to (x2 * x) mod p.
        assert(i == 4);
        let c1 = cs.constraints@[1];
        lemma_eval_single(c1.a, zf, 2);
        lemma_eval_single(c1.b, zf, 2);
        lemma_eval_single(c1.c, zf, 2);
        assert(eval_terms(c1.a.terms@, zf, 2) == x2v);
        assert(eval_terms(c1.b.terms@, zf, 2) == a);
        assert(eval_terms(c1.c.terms@, zf, 2) == tv);
        lemma_val_injective(t, z[4]);
        assert(tv != x3v);
        assert(!constraint_holds(c1, zf, 2));
        assert(!satisfied_with(cs.constraints@, zf, 2));
    }
}

/// Flipping any single entry of the honest witness vector, the constant
/// entry aside, violates some row of the cube system: with the entry
/// changed, the satisfaction check returns false.
pub proof fn lemma_cube_flip_unsatisfied(cs: ConstraintSystem, x: Felt, y: Felt, i: int, t: Felt)
    requires
        cs.wf(),
        is_cube_system(cs, x, y),
        x.wf(),
        y.wf(),
        y.val() == cube_relation_spec(x.val()),
        1 <= i < 5,
        t.wf(),
        t != cs.z_spec()[i],
    ensures
        !satisfied_with(cs.constraints@, cs.z_spec().update(i, t), cs.ni()),
{
    if i == 1 || i == 2 {
        lemma_cube_flip_row2(cs, x, y, i, t);
    } else {
        lemma_cube_flip_square(cs, x, y, i, t);
    }
}

} // verus!
