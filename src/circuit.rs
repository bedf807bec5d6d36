//! The Schnorr verifier: BIP-340-style verification with an even-y nonce
//! point, where the caller vouches for the public key.

use crate::curve::{
    difference_of, fixed_base_multiply, generator_point, is_curve_point, scalar_mul_of,
    subtract_assume_unequal, variable_base_multiply, CurvePoint,
};
use crate::field::{
    in_base_field_range, is_even, is_in_base_field_range, is_soft_nonzero, scalar_modulus,
    soft_nonzero, U256,
};
use vstd::prelude::*;

verus! {

/// The four inputs of a verification.
#[derive(Clone, Copy, Debug, PartialEq, Eq)]
pub struct SchnorrInput {
    /// x-coordinate of the nonce point, a base-field value.
    pub r: U256,
    /// The response scalar.
    pub s: U256,
    /// The challenge scalar.
    pub msg_hash: U256,
    /// The public key.
    pub pk: CurvePoint,
}

/// `s·G - e·pk`, the nonce point that a valid signature commits to.
pub open spec fn recovered_nonce(pk: (nat, nat), s: nat, e: nat) -> (nat, nat) {
    difference_of(scalar_mul_of(generator_point(), s), scalar_mul_of(pk, e))
}

/// Whether `(r, s)` is a valid signature of the challenge `e` under `pk`:
/// `r < p`, `0 < s < n`, `0 < e < n`, `s·G` and `e·pk` have different
/// x-coordinates, and `R = s·G - e·pk` has an even y-coordinate and
/// `R.x mod n == r`.
pub open spec fn schnorr_valid(pk: (nat, nat), r: nat, s: nat, e: nat) -> bool {
    &&& in_base_field_range(r)
    &&& soft_nonzero(s)
    &&& soft_nonzero(e)
    &&& scalar_mul_of(generator_point(), s).0 != scalar_mul_of(pk, e).0
    &&& recovered_nonce(pk, s, e).1 % 2 == 0
    &&& recovered_nonce(pk, s, e).0 % scalar_modulus() == r
}

/// Verifies the signature `(r, s)` of the challenge `msg_hash` under `pk`.
/// The public key is not checked beyond the caller's guarantee that it is a
/// point of the curve other than the identity.
pub fn verify(pk: &CurvePoint, r: &U256, s: &U256, msg_hash: &U256) -> (res: bool)
    requires
        is_curve_point(pk@),
    ensures
        res == schnorr_valid(pk@, r@, s@, msg_hash@),
{
    let r_valid = is_in_base_field_range(r);
    let s_valid = is_soft_nonzero(s);
    let e_valid = is_soft_nonzero(msg_hash);
    // The multiplications take elements of the scalar field.
    if !s_valid || !e_valid {
        return false;
    }
    let s_g = fixed_base_multiply(s);
    let e_p = variable_base_multiply(pk, msg_hash);
    let x_neq = !s_g.x.eq_value(&e_p.x);
    // The subtraction is defined only for points with distinct x-coordinates.
    if !x_neq {
        return false;
    }
    let nonce = subtract_assume_unequal(&s_g, &e_p);
    let y_even = is_even(&nonce.y);
    let x_match = nonce.x.reduce_mod_scalar().eq_value(r);
    r_valid && s_valid && e_valid && x_neq && y_even && x_match
}

impl SchnorrInput {
    /// Verifies the signature that the bundle holds.
    pub fn verify(&self) -> (res: bool)
        requires
            is_curve_point(self.pk@),
        ensures
            res == schnorr_valid(self.pk@, self.r@, self.s@, self.msg_hash@),
    {
        verify(&self.pk, &self.r, &self.s, &self.msg_hash)
    }
}

/// A commitment `r` outside the base field is rejected, whatever the public
/// key, response and challenge.
pub proof fn lemma_out_of_range_commitment_rejected(pk: (nat, nat), r: nat, s: nat, e: nat)
    requires
        r >= crate::field::base_modulus(),
    ensures
        !schnorr_valid(pk, r, s, e),
{
}

} // verus!
