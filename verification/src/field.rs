//! Elements of the scalar field of BLS12-381, held by their canonical
//! four-limb integer value.  The field arithmetic itself is an outside
//! capability: each operation calls into `ark_ff` through a trusted wrapper
//! whose contract states the result modulo the prime.

use vstd::prelude::*;
use ark_ff::{BigInt, PrimeField};
use ark_bls12_381::Fr;

verus! {

/// A field element, stored as the four 64-bit limbs of its canonical
/// (fully reduced) integer value, least significant limb first.
#[derive(Clone, Copy, Debug, PartialEq, Eq, Structural)]
pub struct Felt {
    pub l0: u64,
    pub l1: u64,
    pub l2: u64,
    pub l3: u64,
}

/// The prime modulus of the field.
pub open spec fn p() -> int {
    52435875175126190479447740508185965837690552500527637822603658699938581184513int
}

impl Felt {
    /// The integer value of the four limbs.
    pub open spec fn val(self) -> int {
        self.l0
            + self.l1 * 0x10000000000000000int
            + self.l2 * 0x100000000000000000000000000000000int
            + self.l3 * 0x1000000000000000000000000000000000000000000000000int
    }

    /// A well-formed element is fully reduced modulo the prime.
    pub open spec fn wf(self) -> bool {
        self.val() < p()
    }

    /// Embeds a machine integer into the field; the modulus is far above
    /// the 64-bit range, so no reduction is needed.
    pub fn from_u64(x: u64) -> (r: Felt)
        ensures
            r.wf(),
            r.val() == x,
    {
        Felt { l0: x, l1: 0, l2: 0, l3: 0 }
    }

    /// The additive identity.
    pub fn zero() -> (r: Felt)
        ensures
            r.wf(),
            r.val() == 0,
    {
        Felt::from_u64(0)
    }

    /// The multiplicative identity.
    pub fn one() -> (r: Felt)
        ensures
            r.wf(),
            r.val() == 1,
    {
        Felt::from_u64(1)
    }
}

/// Two well-formed elements are equal exactly when their values are:
/// the limbs are the base-2^64 digits of the value, which are unique.
pub proof fn lemma_val_injective(a: Felt, b: Felt)
    ensures
        (a.val() == b.val()) <==> (a == b),
{
}

/// Relies on the `Add` impl of `ark_ff::Fp` for the BLS12-381 scalar field:
/// addition of canonical representatives modulo the prime.
#[verifier::external_body]
pub fn fp_add(a: &Felt, b: &Felt) -> (r: Felt)
    requires
        a.wf(),
        b.wf(),
    ensures
        r.wf(),
        r.val() == (a.val() + b.val()) % p(),
{
    let x = Fr::from_bigint(BigInt::new([a.l0, a.l1, a.l2, a.l3])).unwrap();
    let y = Fr::from_bigint(BigInt::new([b.l0, b.l1, b.l2, b.l3])).unwrap();
    let s = (x + y).into_bigint().0;
    Felt { l0: s[0], l1: s[1], l2: s[2], l3: s[3] }
}

/// Relies on the `Sub` impl of `ark_ff::Fp` for the BLS12-381 scalar field:
/// subtraction of canonical representatives modulo the prime.
#[verifier::external_body]
pub fn fp_sub(a: &Felt, b: &Felt) -> (r: Felt)
    requires
        a.wf(),
        b.wf(),
    ensures
        r.wf(),
        r.val() == (a.val() - b.val()) % p(),
{
    let x = Fr::from_bigint(BigInt::new([a.l0, a.l1, a.l2, a.l3])).unwrap();
    let y = Fr::from_bigint(BigInt::new([b.l0, b.l1, b.l2, b.l3])).unwrap();
    let s = (x - y).into_bigint().0;
    Felt { l0: s[0], l1: s[1], l2: s[2], l3: s[3] }
}

/// Relies on the `Mul` impl of `ark_ff::Fp` for the BLS12-381 scalar field:
/// multiplication of canonical representatives modulo the prime.
#[verifier::external_body]
pub fn fp_mul(a: &Felt, b: &Felt) -> (r: Felt)
    requires
        a.wf(),
        b.wf(),
    ensures
        r.wf(),
        r.val() == (a.val() * b.val()) % p(),
{
    let x = Fr::from_bigint(BigInt::new([a.l0, a.l1, a.l2, a.l3])).unwrap();
    let y = Fr::from_bigint(BigInt::new([b.l0, b.l1, b.l2, b.l3])).unwrap();
    let s = (x * y).into_bigint().0;
    Felt { l0: s[0], l1: s[1], l2: s[2], l3: s[3] }
}

} // verus!
