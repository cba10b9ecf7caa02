//! Tests of the constraint-system core: field arithmetic, the cube
//! relation, satisfaction checking, and matrix extraction.

use r1cs_snark::circuit::{build, build_cube, cube_relation, CubeCircuit};
use r1cs_snark::error::R1csError;
use r1cs_snark::field::{fp_add, fp_mul, fp_sub, Felt};
use r1cs_snark::lc::{Lc, Variable};
use r1cs_snark::system::SystemMode;

fn cube(x: u64) -> CubeCircuit {
    let xf = Felt::from_u64(x);
    let yf = cube_relation(&xf);
    CubeCircuit { x: xf, y: yf }
}

#[test]
fn felt_arithmetic() {
    let one = Felt::one();
    let two = Felt::from_u64(2);
    let three = Felt::from_u64(3);
    assert_eq!(fp_add(&one, &two), three);
    assert_eq!(fp_mul(&two, &three), Felt::from_u64(6));
    assert_eq!(fp_sub(&three, &two), one);
    // -1 is the modulus minus one; adding one back wraps to zero.
    let neg_one = fp_sub(&Felt::zero(), &one);
    assert_ne!(neg_one, Felt::zero());
    assert_eq!(fp_add(&neg_one, &one), Felt::zero());
}

#[test]
fn cube_relation_value() {
    // 3^3 + 3 + 5 == 35
    let y = cube_relation(&Felt::from_u64(3));
    assert_eq!(y, Felt::from_u64(35));
    // 0^3 + 0 + 5 == 5
    assert_eq!(cube_relation(&Felt::from_u64(0)), Felt::from_u64(5));
    // 10^3 + 10 + 5 == 1015
    assert_eq!(cube_relation(&Felt::from_u64(10)), Felt::from_u64(1015));
}

#[test]
fn cube_system_satisfied() {
    let cs = build_cube(&cube(3));
    assert!(cs.is_satisfied());
    assert!(cs.check_satisfied().is_ok());
    // z = [1, 35, 3, 9, 27]
    let z = cs.z();
    let expected: Vec<Felt> = [1u64, 35, 3, 9, 27].iter().map(|&v| Felt::from_u64(v)).collect();
    assert_eq!(z, expected);
}

#[test]
fn cube_system_satisfied_many_inputs() {
    for x in [0u64, 1, 2, 7, 100, 12345, u64::MAX] {
        let cs = build_cube(&cube(x));
        assert!(cs.is_satisfied());
    }
}

#[test]
fn build_through_capability() {
    let cs = build(&cube(3)).expect("synthesis");
    assert!(cs.is_satisfied());
    assert_eq!(cs.instance.len(), 2);
    assert_eq!(cs.witness.len(), 3);
    assert_eq!(cs.instance[0], Felt::one());
}

#[test]
fn wrong_public_input_unsatisfied() {
    let xf = Felt::from_u64(3);
    let circuit = CubeCircuit { x: xf, y: Felt::from_u64(36) };
    let cs = build_cube(&circuit);
    assert!(!cs.is_satisfied());
    // Rows 0 and 1 still hold; the linear row is the first violated one.
    assert_eq!(cs.check_satisfied(), Err(R1csError::UnsatisfiedConstraint(2)));
}

#[test]
fn flip_any_entry_unsatisfied() {
    // Flipping any one entry of [y, x, x^2, x^3] away from its honest
    // value breaks some constraint.
    for i in 1..5usize {
        let mut cs = build_cube(&cube(3));
        let honest = cs.z();
        let flipped = fp_add(&honest[i], &Felt::one());
        if i == 1 {
            cs.instance[1] = flipped;
        } else {
            cs.witness[i - 2] = flipped;
        }
        assert!(!cs.is_satisfied(), "flip of entry {i} went unnoticed");
    }
}

#[test]
fn allocation_after_finalize_fails() {
    let mut cs = build_cube(&cube(3));
    cs.extract_matrices().expect("extraction");
    assert_eq!(cs.mode, SystemMode::Finalized);
    assert_eq!(cs.allocate_public(Felt::one()), Err(R1csError::AllocationError));
    assert_eq!(cs.allocate_witness(Felt::one()), Err(R1csError::AllocationError));
    let lc = Lc::mul_variable(Variable::Constant);
    assert_eq!(
        cs.enforce(lc.clone(), lc.clone(), lc),
        Err(R1csError::AllocationError)
    );
    // A second extraction is refused as well: the transition is one-way.
    assert!(matches!(cs.extract_matrices(), Err(R1csError::AllocationError)));
}

#[test]
fn synthesis_on_finalized_system_fails() {
    let circuit = cube(3);
    let mut cs = build_cube(&circuit);
    cs.extract_matrices().expect("extraction");
    // Recording into a finalized system surfaces the builder's refusal
    // and leaves the system unchanged.
    let before = cs.constraints.len();
    assert_eq!(circuit.synthesize_cube(&mut cs), Err(R1csError::AllocationError));
    assert_eq!(cs.constraints.len(), before);
    assert_eq!(cs.mode, SystemMode::Finalized);
}

#[test]
fn extraction_without_constraints_fails() {
    let mut cs = r1cs_snark::system::ConstraintSystem::new();
    assert!(matches!(cs.extract_matrices(), Err(R1csError::MatrixExtractionError)));
    // The failed call does not finalize the system.
    assert_eq!(cs.mode, SystemMode::Recording);
}

#[test]
fn matrix_shape() {
    let mut cs = build_cube(&cube(3));
    let m = cs.extract_matrices().expect("extraction");
    assert_eq!(m.a.len(), 3);
    assert_eq!(m.b.len(), 3);
    assert_eq!(m.c.len(), 3);
    assert_eq!(m.num_instance, 2);
    assert_eq!(m.num_witness, 3);
    let ncols = m.num_instance + m.num_witness;
    for rows in [&m.a, &m.b, &m.c] {
        for row in rows {
            for &(_, col) in row {
                assert!(col < ncols);
            }
        }
    }
}

#[test]
fn matrices_exact_rows() {
    // x = 3, y = 35, z = [1, 35, 3, 9, 27]; the three rows are exactly
    // those of x*x = x2, x2*x = x3, and (5 - y + x + x3) * 1 = 0.
    let mut cs = build_cube(&cube(3));
    let m = cs.extract_matrices().expect("extraction");
    let one = Felt::one();
    let five = Felt::from_u64(5);
    let neg_one = fp_sub(&Felt::zero(), &one);
    assert_eq!(m.a[0], vec![(one, 2)]);
    assert_eq!(m.b[0], vec![(one, 2)]);
    assert_eq!(m.c[0], vec![(one, 3)]);
    assert_eq!(m.a[1], vec![(one, 3)]);
    assert_eq!(m.b[1], vec![(one, 2)]);
    assert_eq!(m.c[1], vec![(one, 4)]);
    assert_eq!(m.a[2], vec![(five, 0), (neg_one, 1), (one, 2), (one, 4)]);
    assert_eq!(m.b[2], vec![(one, 0)]);
    assert_eq!(m.c[2], vec![]);
}

#[test]
fn lc_algebra() {
    // The third row's left-hand side, assembled with the public
    // combination operations.
    let five = Felt::from_u64(5);
    let neg_one = fp_sub(&Felt::zero(), &Felt::one());
    let lc = Lc::mul_variable(Variable::Constant)
        .scale(&five)
        .add(&Lc::mul_variable(Variable::PublicInput(1)).scale(&neg_one))
        .add(&Lc::mul_variable(Variable::Witness(0)))
        .add(&Lc::mul_variable(Variable::Witness(2)));
    let one = Felt::one();
    assert_eq!(
        lc.terms,
        vec![
            (five, Variable::Constant),
            (neg_one, Variable::PublicInput(1)),
            (one, Variable::Witness(0)),
            (one, Variable::Witness(2)),
        ]
    );
    // Scaling by zero zeroes every coefficient but keeps the shape.
    let zeroed = lc.scale(&Felt::zero());
    assert_eq!(zeroed.terms.len(), 4);
    for (coeff, _) in &zeroed.terms {
        assert_eq!(*coeff, Felt::zero());
    }
}
