//! Affine points of secp256k1 as plain integers, and the curve operations
//! that the verifier needs, computed by halo2curves.

use crate::field::{base_modulus, limbs_value, scalar_modulus, U256};
use halo2_base::halo2_proofs::arithmetic::CurveAffine;
use halo2_base::halo2_proofs::halo2curves::secp256k1::{Fp, Fq, Secp256k1Affine};
use vstd::prelude::*;

verus! {

/// `y^2 = x^3 + 7` in the base field: the equation of secp256k1.
pub open spec fn on_curve(x: nat, y: nat) -> bool {
    (y * y) % base_modulus() == (x * x * x + 7) % base_modulus()
}

/// The identity (point at infinity), written with both coordinates zero;
/// `(0, 0)` is not on the curve, so the encoding is unambiguous.
pub open spec fn is_identity(pt: (nat, nat)) -> bool {
    pt.0 == 0 && pt.1 == 0
}

/// A point of the curve other than the identity, with canonical coordinates.
pub open spec fn is_curve_point(pt: (nat, nat)) -> bool {
    pt.0 < base_modulus() && pt.1 < base_modulus() && on_curve(pt.0, pt.1)
}

/// A point of the curve or the identity.
pub open spec fn is_valid_point(pt: (nat, nat)) -> bool {
    is_curve_point(pt) || is_identity(pt)
}

/// The standard generator `G` of secp256k1.
pub open spec fn generator_point() -> (nat, nat) {
    (
        limbs_value(0x59F2_815B_16F8_1798, 0x029B_FCDB_2DCE_28D9, 0x55A0_6295_CE87_0B07, 0x79BE_667E_F9DC_BBAC),
        limbs_value(0x9C47_D08F_FB10_D4B8, 0xFD17_B448_A685_5419, 0x5DA4_FBFC_0E11_08A8, 0x483A_DA77_26A3_C465),
    )
}

/// `k·pt` in the group of the curve, as halo2curves computes it.
pub uninterp spec fn scalar_mul_of(pt: (nat, nat), k: nat) -> (nat, nat);

/// `a - b` in the group of the curve, as halo2curves computes it.
pub uninterp spec fn difference_of(a: (nat, nat), b: (nat, nat)) -> (nat, nat);

/// An affine point; the identity is `(0, 0)`.
#[derive(Clone, Copy, Debug, PartialEq, Eq)]
pub struct CurvePoint {
    pub x: U256,
    pub y: U256,
}

impl View for CurvePoint {
    type V = (nat, nat);

    open spec fn view(&self) -> (nat, nat) {
        (self.x@, self.y@)
    }
}

/// Relies on halo2curves' `Secp256k1Affine::from_xy`, which accepts exactly
/// the pairs with `y^2 - x^3 = 7` in the base field, and the identity `(0, 0)`;
/// `Fp::from_raw` is the identity on canonical values.
#[verifier::external_body]
fn curve_accepts(x: &U256, y: &U256) -> (r: bool)
    requires
        x@ < base_modulus(),
        y@ < base_modulus(),
    ensures
        r == (on_curve(x@, y@) || (x@ == 0 && y@ == 0)),
{
    bool::from(Secp256k1Affine::from_xy(Fp::from_raw(x.limbs), Fp::from_raw(y.limbs)).is_some())
}

/// Relies on halo2curves' `Mul<&Fq> for &Secp256k1Affine` and on the
/// conversion of its projective result to affine coordinates, which gives
/// the identity as `(0, 0)` and canonical coordinates otherwise.
#[verifier::external_body]
fn multiply(pt: &CurvePoint, k: &U256) -> (r: CurvePoint)
    requires
        is_valid_point(pt@),
        k@ < scalar_modulus(),
    ensures
        is_valid_point(r@),
        r@ == scalar_mul_of(pt@, k@),
{
    let base = Secp256k1Affine { x: Fp::from_raw(pt.x.limbs), y: Fp::from_raw(pt.y.limbs) };
    let q = Secp256k1Affine::from(&base * &Fq::from_raw(k.limbs));
    CurvePoint { x: U256 { limbs: q.x.into() }, y: U256 { limbs: q.y.into() } }
}

/// Relies on halo2curves' `Sub<&Secp256k1Affine> for &Secp256k1Affine` and on
/// the conversion of its projective result to affine coordinates, which gives
/// the identity as `(0, 0)` and canonical coordinates otherwise.
#[verifier::external_body]
fn subtract(a: &CurvePoint, b: &CurvePoint) -> (r: CurvePoint)
    requires
        is_valid_point(a@),
        is_valid_point(b@),
    ensures
        is_valid_point(r@),
        r@ == difference_of(a@, b@),
{
    let p = Secp256k1Affine { x: Fp::from_raw(a.x.limbs), y: Fp::from_raw(a.y.limbs) };
    let q = Secp256k1Affine { x: Fp::from_raw(b.x.limbs), y: Fp::from_raw(b.y.limbs) };
    let d = Secp256k1Affine::from(&p - &q);
    CurvePoint { x: U256 { limbs: d.x.into() }, y: U256 { limbs: d.y.into() } }
}

impl CurvePoint {
    /// The generator `G`.
    pub fn generator() -> (r: CurvePoint)
        ensures
            r@ == generator_point(),
            is_curve_point(r@),
    {
        let x = U256::from_limbs([0x59F2_815B_16F8_1798, 0x029B_FCDB_2DCE_28D9, 0x55A0_6295_CE87_0B07, 0x79BE_667E_F9DC_BBAC]);
        let y = U256::from_limbs([0x9C47_D08F_FB10_D4B8, 0xFD17_B448_A685_5419, 0x5DA4_FBFC_0E11_08A8, 0x483A_DA77_26A3_C465]);
        assert(x@ == generator_point().0 && y@ == generator_point().1);
        assert(on_curve(generator_point().0, generator_point().1)) by (nonlinear_arith);
        CurvePoint { x, y }
    }

    /// The identity, `(0, 0)`.
    pub fn identity() -> (r: CurvePoint)
        ensures
            is_identity(r@),
            is_valid_point(r@),
    {
        CurvePoint { x: U256::from_u64(0), y: U256::from_u64(0) }
    }

    /// The point `(x, y)` when it is a point of the curve other than the
    /// identity with canonical coordinates, and `None` otherwise.
    pub fn from_coordinates(x: U256, y: U256) -> (r: Option<CurvePoint>)
        ensures
            r.is_some() == is_curve_point((x@, y@)),
            r.is_some() ==> r.unwrap() == (CurvePoint { x, y }),
    {
        let p = U256::base_modulus();
        if !x.lt(&p) || !y.lt(&p) {
            return None;
        }
        let zero = U256::from_u64(0);
        if x.eq_value(&zero) && y.eq_value(&zero) {
            assert(!on_curve(0, 0)) by (nonlinear_arith);
            return None;
        }
        if curve_accepts(&x, &y) {
            Some(CurvePoint { x, y })
        } else {
            None
        }
    }
}

/// `s·G`.
pub fn fixed_base_multiply(s: &U256) -> (r: CurvePoint)
    requires
        s@ < scalar_modulus(),
    ensures
        is_valid_point(r@),
        r@ == scalar_mul_of(generator_point(), s@),
{
    multiply(&CurvePoint::generator(), s)
}

/// `s·pt` for a point `pt` given at run time.
pub fn variable_base_multiply(pt: &CurvePoint, s: &U256) -> (r: CurvePoint)
    requires
        is_valid_point(pt@),
        s@ < scalar_modulus(),
    ensures
        is_valid_point(r@),
        r@ == scalar_mul_of(pt@, s@),
{
    multiply(pt, s)
}

/// Whether the two points are the same; the identity equals only itself.
pub fn points_equal(a: &CurvePoint, b: &CurvePoint) -> (r: bool)
    ensures
        r == (a@ == b@),
{
    a.x.eq_value(&b.x) && a.y.eq_value(&b.y)
}

/// `a - b`, for points whose x-coordinates differ.
pub fn subtract_assume_unequal(a: &CurvePoint, b: &CurvePoint) -> (r: CurvePoint)
    requires
        is_valid_point(a@),
        is_valid_point(b@),
        a@.0 != b@.0,
    ensures
        is_valid_point(r@),
        r@ == difference_of(a@, b@),
{
    subtract(a, b)
}

} // verus!
