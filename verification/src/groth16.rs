//! The pairing-based proving pipeline on top of the extracted matrices.
//! Proving and verification are done by `ark_groth16`; the keys, the
//! proof and the back end's field representation are opaque here.  What
//! this module verifies is the guard around the calls: a proof is only
//! ever requested for an assignment that satisfies the matrices, fresh
//! blinding is drawn on every call, and the verifier's answer is pinned
//! to the named outcome of the pairing check on exactly the handed-in
//! key, inputs and proof.
//!
//! The key, proof and scalar types are held in hidden fields of structs
//! of this crate: Verus refuses a declaration of the back end's generic
//! types themselves, whose parameters are bound by outside traits.
//!
//! Setup is not wrapped here: ark's generator only accepts a value of
//! its own circuit trait, which a verified function cannot implement;
//! the caller performs setup and hands the resulting keys in.

use vstd::prelude::*;
use ark_bls12_381::{Bls12_381, Fr};
use ark_groth16::Groth16;
use ark_relations::r1cs::ConstraintMatrices;
use ark_snark::SNARK;
use crate::field::Felt;
use crate::matrix::{SparseMatrices, SparseRow, matrices_satisfied, row_wf};
use crate::error::R1csError;

verus! {

#[verifier::external_type_specification]
#[verifier::external_body]
pub struct ExThreadRng(rand::rngs::ThreadRng);

/// The proving half of the common reference string, opaque to the logic.
#[verifier::external_body]
pub struct ProvingKey {
    pub inner: ark_groth16::ProvingKey<Bls12_381>,
}

/// The verifying half of the common reference string, opaque to the
/// logic.
#[verifier::external_body]
pub struct VerifyingKey {
    pub inner: ark_groth16::VerifyingKey<Bls12_381>,
}

/// A proof: three group elements, opaque to the logic.
#[verifier::external_body]
pub struct Proof {
    pub inner: ark_groth16::Proof<Bls12_381>,
}

/// One field element in the back end's own representation.
#[verifier::external_body]
pub struct BackendScalar {
    pub inner: Fr,
}

/// The back end's embedding of a reduced element: `Fr::from_bigint` is a
/// function of the limbs alone.
pub uninterp spec fn scalar_of(a: Felt) -> BackendScalar;

/// A vector of field elements, embedded entry by entry.
pub open spec fn scalars_of(s: Seq<Felt>) -> Seq<BackendScalar> {
    s.map(|i: int, a: Felt| scalar_of(a))
}

/// The outcome of the pairing-product check on a key, an embedded public
/// input vector, and a proof: deterministic in its three arguments.
pub uninterp spec fn verify_outcome(vk: VerifyingKey, inputs: Seq<BackendScalar>, proof: Proof) -> bool;

/// Whether a proving key carries the three query vectors the prover
/// indexes unguarded: a property of the key value alone.
pub uninterp spec fn key_usable(pk: ProvingKey) -> bool;

/// Relies on the proving key's own query vectors (`a_query`,
/// `b_g1_query`, `b_g2_query`): reports whether each is nonempty, the
/// named usability of the key.  The prover reads the head of each of
/// these without a guard, so an empty one must be refused up front.
#[verifier::external_body]
fn key_has_queries(pk: &ProvingKey) -> (r: bool)
    ensures
        r == key_usable(*pk),
{
    !pk.inner.a_query.is_empty() && !pk.inner.b_g1_query.is_empty()
        && !pk.inner.b_g2_query.is_empty()
}

/// Relies on `rand::thread_rng`: a fresh handle to the thread-local
/// cryptographically secure generator.
#[verifier::external_body]
pub fn rng_new() -> rand::rngs::ThreadRng {
    rand::thread_rng()
}

/// Relies on `UniformRand::rand` for the scalar field: a uniformly drawn
/// element.  Every outcome is canonical, so it is well-formed here;
/// nothing else can be promised of a random draw.
#[verifier::external_body]
pub fn fp_rand(rng: &mut rand::rngs::ThreadRng) -> (r: Felt)
    ensures
        r.wf(),
{
    let f: Fr = ark_std::UniformRand::rand(rng);
    let s = ark_ff::PrimeField::into_bigint(f).0;
    Felt { l0: s[0], l1: s[1], l2: s[2], l3: s[3] }
}

/// Relies on `Fr::from_bigint`: embeds the canonical limbs into the back
/// end's field type; a reduced value is always accepted, and the result
/// is the named embedding of the limbs.
#[verifier::external_body]
fn felt_to_scalar(a: &Felt) -> (r: BackendScalar)
    requires
        a.wf(),
    ensures
        r == scalar_of(*a),
{
    BackendScalar {
        inner: <Fr as ark_ff::PrimeField>::from_bigint(
            ark_ff::BigInt::new([a.l0, a.l1, a.l2, a.l3]),
        ).unwrap(),
    }
}

/// Converts a vector of field elements for the back end, keeping length
/// and order.
fn felt_vec_to_scalar(v: &Vec<Felt>) -> (r: Vec<BackendScalar>)
    requires
        forall|i: int| 0 <= i < v@.len() ==> (#[trigger] v@[i]).wf(),
    ensures
        r@.len() == v@.len(),
        forall|i: int| 0 <= i < v@.len() ==> #[trigger] r@[i] == scalar_of(v@[i]),
{
    let mut out: Vec<BackendScalar> = Vec::new();
    let mut i: usize = 0;
    while i < v.len()
        invariant
            i <= v@.len(),
            forall|j: int| 0 <= j < v@.len() ==> (#[trigger] v@[j]).wf(),
            out@.len() == i,
            forall|j: int| 0 <= j < i ==> #[trigger] out@[j] == scalar_of(v@[j]),
        decreases v@.len() - i,
    {
        out.push(felt_to_scalar(&v[i]));
        i = i + 1;
    }
    out
}

/// Converts sparse rows for the back end, entry by entry: every length,
/// column index and coefficient embedding is kept.
fn rows_to_scalar(rows: &Vec<SparseRow>) -> (r: Vec<Vec<(BackendScalar, usize)>>)
    requires
        forall|i: int, j: int|
            0 <= i < rows@.len() && 0 <= j < rows@[i]@.len()
                ==> (#[trigger] rows@[i]@[j]).0.wf(),
    ensures
        r@.len() == rows@.len(),
        forall|i: int| 0 <= i < rows@.len() ==> (#[trigger] r@[i])@.len() == rows@[i]@.len(),
        forall|i: int, j: int|
            0 <= i < rows@.len() && 0 <= j < rows@[i]@.len()
                ==> #[trigger] r@[i]@[j] == (scalar_of(rows@[i]@[j].0), rows@[i]@[j].1),
{
    let mut out: Vec<Vec<(BackendScalar, usize)>> = Vec::new();
    let mut i: usize = 0;
    while i < rows.len()
        invariant
            i <= rows@.len(),
            forall|k: int, j: int|
                0 <= k < rows@.len() && 0 <= j < rows@[k]@.len()
                    ==> (#[trigger] rows@[k]@[j]).0.wf(),
            out@.len() == i,
            forall|k: int| 0 <= k < i ==> (#[trigger] out@[k])@.len() == rows@[k]@.len(),
            forall|k: int, j: int|
                0 <= k < i && 0 <= j < rows@[k]@.len()
                    ==> #[trigger] out@[k]@[j] == (scalar_of(rows@[k]@[j].0), rows@[k]@[j].1),
        decreases rows@.len() - i,
    {
        let row = &rows[i];
        let mut out_row: Vec<(BackendScalar, usize)> = Vec::new();
        let mut j: usize = 0;
        while j < row.len()
            invariant
                j <= row@.len(),
                forall|k: int| 0 <= k < row@.len() ==> (#[trigger] row@[k]).0.wf(),
                out_row@.len() == j,
                forall|k: int| 0 <= k < j
                    ==> #[trigger] out_row@[k] == (scalar_of(row@[k].0), row@[k].1),
            decreases row@.len() - j,
        {
            let (coeff, col) = row[j];
            out_row.push((felt_to_scalar(&coeff), col));
            j = j + 1;
        }
        out.push(out_row);
        i = i + 1;
    }
    out
}

/// The number of stored entries over all rows, saturating at the index
/// type's maximum.
fn entry_count(rows: &Vec<Vec<(BackendScalar, usize)>>) -> usize {
    let mut count: usize = 0;
    let mut i: usize = 0;
    while i < rows.len()
        invariant
            i <= rows@.len(),
        decreases rows@.len() - i,
    {
        let n = rows[i].len();
        if count > usize::MAX - n {
            count = usize::MAX;
        } else {
            count = count + n;
        }
        i = i + 1;
    }
    count
}

/// Relies on ark_groth16's matrices-based prover
/// (`Groth16::create_proof_with_reduction_and_matrices`), handing it the
/// assembled `ark_relations` matrix record.  The preconditions keep the
/// back end inside its domain: the key's query vectors are present (the
/// prover reads their heads unguarded), the constant column exists, each
/// matrix has exactly one row per constraint, every stored column points
/// into the assignment, and the assignment spans all columns.  When an
/// evaluation domain of the needed size exists (the scalar field carries
/// radix-2 domains up to 2^32), the call returns a proof; the one error
/// is the missing domain, reported as the setup-class error.  The result
/// depends on the blinding, so nothing is promised of the proof's value.
#[verifier::external_body]
#[allow(clippy::too_many_arguments)]
fn groth16_prove_call(
    pk: &ProvingKey,
    a: Vec<Vec<(BackendScalar, usize)>>,
    b: Vec<Vec<(BackendScalar, usize)>>,
    c: Vec<Vec<(BackendScalar, usize)>>,
    annz: usize,
    bnnz: usize,
    cnnz: usize,
    ni: usize,
    nw: usize,
    nc: usize,
    z: Vec<BackendScalar>,
    r: BackendScalar,
    s: BackendScalar,
) -> (res: Result<Proof, R1csError>)
    requires
        key_usable(*pk),
        1 <= ni,
        a@.len() == nc,
        b@.len() == nc,
        c@.len() == nc,
        z@.len() == ni + nw,
        forall|i: int, j: int| 0 <= i < a@.len() && 0 <= j < a@[i]@.len()
            ==> (#[trigger] a@[i]@[j]).1 < z@.len(),
        forall|i: int, j: int| 0 <= i < b@.len() && 0 <= j < b@[i]@.len()
            ==> (#[trigger] b@[i]@[j]).1 < z@.len(),
        forall|i: int, j: int| 0 <= i < c@.len() && 0 <= j < c@[i]@.len()
            ==> (#[trigger] c@[i]@[j]).1 < z@.len(),
    ensures
        res matches Err(e) ==> e == R1csError::SetupError,
        nc + ni <= 0x100000000 ==> res matches Ok(_),
{
    let conv = |m: Vec<Vec<(BackendScalar, usize)>>| {
        m.into_iter().map(|row| row.into_iter().map(|t| (t.0.inner, t.1)).collect()).collect()
    };
    let cm = ConstraintMatrices::<Fr> {
        num_instance_variables: ni, num_witness_variables: nw, num_constraints: nc,
        a_num_non_zero: annz, b_num_non_zero: bnnz, c_num_non_zero: cnnz,
        a: conv(a), b: conv(b), c: conv(c),
    };
    let zf: Vec<Fr> = z.into_iter().map(|v| v.inner).collect();
    Groth16::<Bls12_381>::create_proof_with_reduction_and_matrices(
        &pk.inner, r.inner, s.inner, &cm, ni, nc, &zf,
    ).map(|inner| Proof { inner }).map_err(|_| R1csError::SetupError)
}

/// Relies on ark_groth16's verifier through the SNARK interface
/// (`Groth16::verify`): processes the verifying key, folds the public
/// inputs into a commitment, and decides the pairing-product equation.
/// The check is a deterministic function of the key, the embedded inputs
/// and the proof, so a clean answer is exactly its named outcome.  An
/// error comes exactly when the back end refuses the inputs (a public
/// input count that does not match the key, or a degenerate pairing
/// value); a clean `false` is a rejected proof, never an error.
#[verifier::external_body]
fn groth16_verify_call(
    vk: &VerifyingKey,
    inputs: Vec<BackendScalar>,
    proof: &Proof,
) -> (res: Result<bool, R1csError>)
    ensures
        res matches Err(e) ==> e == R1csError::InvalidProofEncoding,
        res matches Ok(b) ==> b == verify_outcome(*vk, inputs@, *proof),
{
    let ins: Vec<Fr> = inputs.into_iter().map(|v| v.inner).collect();
    <Groth16<Bls12_381> as SNARK<Fr>>::verify(&vk.inner, &ins, &proof.inner)
        .map_err(|_| R1csError::InvalidProofEncoding)
}

/// Produces a proof for the assignment `z` against the extracted
/// matrices.  The assignment is first checked against the matrices and an
/// unsatisfying one is refused with `WitnessInconsistencyError` before
/// any cryptographic work; a key without its query vectors is refused
/// with the setup-class error; two fresh blinding scalars are drawn from
/// `rng` on every call, so repeated proofs of one witness differ.  On a
/// usable key and a satisfying assignment whose shape fits the field's
/// evaluation domains, a proof is returned.
pub fn prove(
    pk: &ProvingKey,
    m: &SparseMatrices,
    z: &Vec<Felt>,
    rng: &mut rand::rngs::ThreadRng,
) -> (res: Result<Proof, R1csError>)
    requires
        m.wf(),
        z@.len() == m.num_cols(),
        forall|i: int| 0 <= i < z@.len() ==> (#[trigger] z@[i]).wf(),
    ensures
        !m.satisfied_by(z@) <==> (res matches Err(e) && e == R1csError::WitnessInconsistencyError),
        m.satisfied_by(z@) ==> (res matches Ok(_) || (res matches Err(e)
            && e == R1csError::SetupError)),
        m.satisfied_by(z@) && m.a@.len() + m.num_instance <= 0x100000000 && key_usable(*pk)
            ==> res matches Ok(_),
{
    if !matrices_satisfied(m, z) {
        return Err(R1csError::WitnessInconsistencyError);
    }
    if !key_has_queries(pk) {
        return Err(R1csError::SetupError);
    }
    proof {
        assert forall|i: int, j: int|
            0 <= i < m.a@.len() && 0 <= j < m.a@[i]@.len()
            implies (#[trigger] m.a@[i]@[j]).0.wf() && m.a@[i]@[j].1 < m.num_cols() by {
            assert(row_wf(m.a@[i]@, m.num_cols()));
        }
        assert forall|i: int, j: int|
            0 <= i < m.b@.len() && 0 <= j < m.b@[i]@.len()
            implies (#[trigger] m.b@[i]@[j]).0.wf() && m.b@[i]@[j].1 < m.num_cols() by {
            assert(row_wf(m.b@[i]@, m.num_cols()));
        }
        assert forall|i: int, j: int|
            0 <= i < m.c@.len() && 0 <= j < m.c@[i]@.len()
            implies (#[trigger] m.c@[i]@[j]).0.wf() && m.c@[i]@[j].1 < m.num_cols() by {
            assert(row_wf(m.c@[i]@, m.num_cols()));
        }
    }
    let r = fp_rand(rng);
    let s = fp_rand(rng);
    let fa = rows_to_scalar(&m.a);
    let fb = rows_to_scalar(&m.b);
    let fc = rows_to_scalar(&m.c);
    let annz = entry_count(&fa);
    let bnnz = entry_count(&fb);
    let cnnz = entry_count(&fc);
    let zf = felt_vec_to_scalar(z);
    let nc = m.a.len();
    proof {
        assert forall|i: int, j: int|
            0 <= i < fa@.len() && 0 <= j < fa@[i]@.len()
            implies (#[trigger] fa@[i]@[j]).1 < zf@.len() by {
            assert(fa@[i]@[j] == (scalar_of(m.a@[i]@[j].0), m.a@[i]@[j].1));
        }
        assert forall|i: int, j: int|
            0 <= i < fb@.len() && 0 <= j < fb@[i]@.len()
            implies (#[trigger] fb@[i]@[j]).1 < zf@.len() by {
            assert(fb@[i]@[j] == (scalar_of(m.b@[i]@[j].0), m.b@[i]@[j].1));
        }
        assert forall|i: int, j: int|
            0 <= i < fc@.len() && 0 <= j < fc@[i]@.len()
            implies (#[trigger] fc@[i]@[j]).1 < zf@.len() by {
            assert(fc@[i]@[j] == (scalar_of(m.c@[i]@[j].0), m.c@[i]@[j].1));
        }
    }
    groth16_prove_call(
        pk,
        fa,
        fb,
        fc,
        annz,
        bnnz,
        cnnz,
        m.num_instance,
        m.num_witness,
        nc,
        zf,
        felt_to_scalar(&r),
        felt_to_scalar(&s),
    )
}

/// Verifies a proof against the verifying key and the public inputs: the
/// instance values the verifier knows, the leading constant excluded.
/// The boolean is the deterministic outcome of the pairing check on this
/// key, these inputs in this order, and this proof; an error reports
/// inputs the back end refuses, never a failed equation.
pub fn verify(
    vk: &VerifyingKey,
    public_inputs: &Vec<Felt>,
    proof: &Proof,
) -> (res: Result<bool, R1csError>)
    requires
        forall|i: int| 0 <= i < public_inputs@.len() ==> (#[trigger] public_inputs@[i]).wf(),
    ensures
        res matches Err(e) ==> e == R1csError::InvalidProofEncoding,
        res matches Ok(b) ==> b == verify_outcome(*vk, scalars_of(public_inputs@), *proof),
{
    let ins = felt_vec_to_scalar(public_inputs);
    proof {
        assert(ins@ =~= scalars_of(public_inputs@));
    }
    groth16_verify_call(vk, ins, proof)
}

} // verus!
