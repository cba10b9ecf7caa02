//! Tests of the full setup / prove / verify pipeline.  Setup runs through
//! ark_groth16's circuit-driven generator, on an ark-side circuit of the
//! same shape the library records; proving and verification go through
//! the library's matrix-based functions.

use ark_bls12_381::{Bls12_381, Fr};
use ark_groth16::Groth16;
use ark_relations::r1cs::{
    ConstraintSynthesizer, ConstraintSystemRef, LinearCombination, SynthesisError, Variable,
};
use r1cs_snark::circuit::{build_cube, cube_relation, CubeCircuit};
use r1cs_snark::error::R1csError;
use r1cs_snark::field::{fp_add, Felt};
use r1cs_snark::groth16::{prove, rng_new, verify, ProvingKey, VerifyingKey};
use r1cs_snark::matrix::SparseMatrices;

/// The cube relation written against ark's own constraint system, used
/// only to derive the common reference string; its shape matches the
/// library's matrices row for row and column for column.
struct ArkCube {
    x: Fr,
    y: Fr,
}

impl ConstraintSynthesizer<Fr> for ArkCube {
    fn generate_constraints(self, cs: ConstraintSystemRef<Fr>) -> Result<(), SynthesisError> {
        let y = cs.new_input_variable(|| Ok(self.y))?;
        let x = cs.new_witness_variable(|| Ok(self.x))?;
        let x2 = cs.new_witness_variable(|| Ok(self.x * self.x))?;
        let x3 = cs.new_witness_variable(|| Ok(self.x * self.x * self.x))?;
        let lx = LinearCombination::from(x);
        let lx2 = LinearCombination::from(x2);
        let lx3 = LinearCombination::from(x3);
        cs.enforce_constraint(lx.clone(), lx.clone(), lx2.clone())?;
        cs.enforce_constraint(lx2, lx.clone(), lx3.clone())?;
        let row = LinearCombination::from((Fr::from(5u64), Variable::One)) - y + x + x3;
        cs.enforce_constraint(row, LinearCombination::from(Variable::One), LinearCombination::zero())?;
        Ok(())
    }
}

/// Runs setup once and extracts the library-side matrices and witness
/// vector for x = 3.
fn pipeline_parts() -> (ProvingKey, VerifyingKey, SparseMatrices, Vec<Felt>, Felt) {
    let x = Felt::from_u64(3);
    let y = cube_relation(&x);
    let mut cs = build_cube(&CubeCircuit { x, y });
    let z = cs.z();
    let m = cs.extract_matrices().expect("extraction");

    let mut rng = rng_new();
    let ark_circuit = ArkCube { x: Fr::from(3u64), y: Fr::from(35u64) };
    let pk = Groth16::<Bls12_381>::generate_random_parameters_with_reduction(ark_circuit, &mut rng)
        .expect("setup");
    let vk = VerifyingKey { inner: pk.vk.clone() };
    (ProvingKey { inner: pk }, vk, m, z, y)
}

#[test]
fn roundtrip_proof_verifies() {
    let (pk, vk, m, z, y) = pipeline_parts();
    let mut rng = rng_new();
    let proof = prove(&pk, &m, &z, &mut rng).expect("prove");
    let result = verify(&vk, &vec![y], &proof).expect("verify");
    assert!(result);
}

#[test]
fn wrong_public_input_rejected() {
    let (pk, vk, m, z, _y) = pipeline_parts();
    let mut rng = rng_new();
    let proof = prove(&pk, &m, &z, &mut rng).expect("prove");
    // A different public input is cleanly rejected, not an error.
    let result = verify(&vk, &vec![Felt::from_u64(34)], &proof).expect("verify");
    assert!(!result);
}

#[test]
fn blinding_makes_proofs_differ() {
    let (pk, vk, m, z, y) = pipeline_parts();
    let mut rng = rng_new();
    let p1 = prove(&pk, &m, &z, &mut rng).expect("prove");
    let p2 = prove(&pk, &m, &z, &mut rng).expect("prove");
    // Fresh blinding on each call: same key, same witness, different
    // encodings, both valid.
    assert!(p1.inner != p2.inner);
    assert!(verify(&vk, &vec![y], &p1).expect("verify"));
    assert!(verify(&vk, &vec![y], &p2).expect("verify"));
}

#[test]
fn unsatisfying_witness_refused() {
    let (pk, _vk, m, mut z, _y) = pipeline_parts();
    z[2] = fp_add(&z[2], &Felt::one());
    let mut rng = rng_new();
    let result = prove(&pk, &m, &z, &mut rng);
    assert!(matches!(result, Err(R1csError::WitnessInconsistencyError)));
}

#[test]
fn degenerate_key_refused() {
    let (pk, _vk, m, z, _y) = pipeline_parts();
    // A key stripped of a query vector cannot drive the prover; it is
    // refused with the setup-class error instead of being handed on.
    let mut stripped = pk.inner.clone();
    stripped.a_query.clear();
    let bad = ProvingKey { inner: stripped };
    let mut rng = rng_new();
    let result = prove(&bad, &m, &z, &mut rng);
    assert!(matches!(result, Err(R1csError::SetupError)));
}

#[test]
fn wrong_input_count_is_an_error() {
    let (pk, vk, m, z, y) = pipeline_parts();
    let mut rng = rng_new();
    let proof = prove(&pk, &m, &z, &mut rng).expect("prove");
    let result = verify(&vk, &vec![y, Felt::one()], &proof);
    assert!(matches!(result, Err(R1csError::InvalidProofEncoding)));
}
