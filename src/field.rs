//! 256-bit unsigned integers held as four little-endian 64-bit limbs, the
//! moduli of secp256k1, and the range and parity predicates of the verifier.

use halo2_base::halo2_proofs::halo2curves::secp256k1::Fq;
use vstd::prelude::*;

verus! {

/// 2^64.
pub open spec fn limb_base() -> nat {
    0x1_0000_0000_0000_0000
}

/// Order of secp256k1's base field,
/// `p = 0xffffffff_ffffffff_ffffffff_ffffffff_ffffffff_ffffffff_fffffffe_fffffc2f`.
pub open spec fn base_modulus() -> nat {
    limbs_value(0xffff_fffe_ffff_fc2f, 0xffff_ffff_ffff_ffff, 0xffff_ffff_ffff_ffff, 0xffff_ffff_ffff_ffff)
}

/// Order of secp256k1's scalar field (the order of the generator),
/// `n = 0xffffffff_ffffffff_ffffffff_fffffffe_baaedce6_af48a03b_bfd25e8c_d0364141`.
pub open spec fn scalar_modulus() -> nat {
    limbs_value(0xbfd2_5e8c_d036_4141, 0xbaae_dce6_af48_a03b, 0xffff_ffff_ffff_fffe, 0xffff_ffff_ffff_ffff)
}

/// Value of four little-endian 64-bit limbs.
pub open spec fn limbs_value(l0: u64, l1: u64, l2: u64, l3: u64) -> nat {
    (l0 + 0x1_0000_0000_0000_0000 * (l1 + 0x1_0000_0000_0000_0000 * (l2 + 0x1_0000_0000_0000_0000
        * l3))) as nat
}

/// An unsigned integer below 2^256, least significant limb first.
#[derive(Clone, Copy, Debug, PartialEq, Eq)]
pub struct U256 {
    pub limbs: [u64; 4],
}

impl View for U256 {
    type V = nat;

    open spec fn view(&self) -> nat {
        limbs_value(self.limbs[0], self.limbs[1], self.limbs[2], self.limbs[3])
    }
}

impl U256 {
    pub fn from_limbs(limbs: [u64; 4]) -> (r: U256)
        ensures
            r.limbs == limbs,
    {
        U256 { limbs }
    }

    pub fn from_u64(v: u64) -> (r: U256)
        ensures
            r@ == v,
    {
        let r = U256 { limbs: [v, 0, 0, 0] };
        assert(r.limbs[0] == v && r.limbs[1] == 0 && r.limbs[2] == 0 && r.limbs[3] == 0);
        r
    }

    /// The order of the base field, `p`.
    pub fn base_modulus() -> (r: U256)
        ensures
            r@ == base_modulus(),
    {
        U256 {
            limbs: [0xffff_fffe_ffff_fc2f, 0xffff_ffff_ffff_ffff, 0xffff_ffff_ffff_ffff, 0xffff_ffff_ffff_ffff],
        }
    }

    /// The order of the scalar field, `n`.
    pub fn scalar_modulus() -> (r: U256)
        ensures
            r@ == scalar_modulus(),
    {
        U256 {
            limbs: [0xbfd2_5e8c_d036_4141, 0xbaae_dce6_af48_a03b, 0xffff_ffff_ffff_fffe, 0xffff_ffff_ffff_ffff],
        }
    }

    /// Whether `self < other`, comparing from the most significant limb.
    pub fn lt(&self, other: &U256) -> (r: bool)
        ensures
            r == (self@ < other@),
    {
        let a = self.limbs;
        let b = other.limbs;
        if a[3] != b[3] {
            a[3] < b[3]
        } else if a[2] != b[2] {
            a[2] < b[2]
        } else if a[1] != b[1] {
            a[1] < b[1]
        } else {
            a[0] < b[0]
        }
    }
}

/// `0 <= x < p`: `x` is the canonical representative of a base-field element.
pub open spec fn in_base_field_range(x: nat) -> bool {
    x < base_modulus()
}

/// `0 < x < n`: a scalar that is neither zero nor out of the scalar field.
pub open spec fn soft_nonzero(x: nat) -> bool {
    0 < x && x < scalar_modulus()
}

/// One limb of a subtraction: `x - y - borrow_in`, with the borrow it needs.
fn sub_limb(x: u64, y: u64, borrow_in: u64) -> (r: (u64, u64))
    requires
        borrow_in <= 1,
    ensures
        r.1 <= 1,
        r.0 - 0x1_0000_0000_0000_0000 * r.1 == x - y - borrow_in,
{
    let xw = x as u128;
    let yw = y as u128 + borrow_in as u128;
    if xw >= yw {
        ((xw - yw) as u64, 0)
    } else {
        ((xw + 0x1_0000_0000_0000_0000 - yw) as u64, 1)
    }
}

impl U256 {
    /// Whether the two integers are equal.
    pub fn eq_value(&self, other: &U256) -> (r: bool)
        ensures
            r == (self@ == other@),
    {
        !self.lt(other) && !other.lt(self)
    }

    /// Whether the integer is even.
    pub fn is_even(&self) -> (r: bool)
        ensures
            r == (self@ % 2 == 0),
    {
        let low = self.limbs[0];
        proof {
            let rest: int = self.limbs[1] + 0x1_0000_0000_0000_0000 * (self.limbs[2]
                + 0x1_0000_0000_0000_0000 * self.limbs[3]);
            assert(self@ == low + 2 * (0x8000_0000_0000_0000 * rest));
        }
        low % 2 == 0
    }

    /// `self - other`, for `other <= self`.
    pub fn sub(&self, other: &U256) -> (r: U256)
        requires
            other@ <= self@,
        ensures
            r@ == self@ - other@,
    {
        let a = self.limbs;
        let b = other.limbs;
        let (d0, c0) = sub_limb(a[0], b[0], 0);
        let (d1, c1) = sub_limb(a[1], b[1], c0);
        let (d2, c2) = sub_limb(a[2], b[2], c1);
        let (d3, c3) = sub_limb(a[3], b[3], c2);
        let r = U256 { limbs: [d0, d1, d2, d3] };
        assert(r.limbs[0] == d0 && r.limbs[1] == d1 && r.limbs[2] == d2 && r.limbs[3] == d3);
        r
    }

    /// The least residue of the integer modulo `n`.
    pub fn reduce_mod_scalar(&self) -> (r: U256)
        ensures
            r@ == self@ % scalar_modulus(),
    {
        let n = U256::scalar_modulus();
        if self.lt(&n) {
            proof {
                vstd::arithmetic::div_mod::lemma_small_mod(self@, n@);
            }
            *self
        } else {
            let r = self.sub(&n);
            proof {
                assert(r@ < n@);
                vstd::arithmetic::div_mod::lemma_small_mod(r@, n@);
                vstd::arithmetic::div_mod::lemma_mod_add_multiples_vanish(r@ as int, n@ as int);
            }
            r
        }
    }
}

/// Relies on halo2curves' `Fq` addition: the sum modulo `n`; `Fq::from_raw`
/// is the identity on canonical values and `[u64; 4]::from` gives the
/// canonical value back.
#[verifier::external_body]
pub(crate) fn scalar_add(a: &U256, b: &U256) -> (r: U256)
    requires
        a@ < scalar_modulus(),
        b@ < scalar_modulus(),
    ensures
        r@ == (a@ + b@) % scalar_modulus(),
{
    U256 { limbs: (Fq::from_raw(a.limbs) + Fq::from_raw(b.limbs)).into() }
}

/// Relies on halo2curves' `Fq` multiplication: the product modulo `n`;
/// `Fq::from_raw` is the identity on canonical values and `[u64; 4]::from`
/// gives the canonical value back.
#[verifier::external_body]
pub(crate) fn scalar_mul(a: &U256, b: &U256) -> (r: U256)
    requires
        a@ < scalar_modulus(),
        b@ < scalar_modulus(),
    ensures
        r@ == (a@ * b@) % scalar_modulus(),
{
    U256 { limbs: (Fq::from_raw(a.limbs) * Fq::from_raw(b.limbs)).into() }
}

/// Whether `x` lies in `[0, p)`.
pub fn is_in_base_field_range(x: &U256) -> (r: bool)
    ensures
        r == in_base_field_range(x@),
{
    x.lt(&U256::base_modulus())
}

/// Whether `0 < x < n`.
pub fn is_soft_nonzero(x: &U256) -> (r: bool)
    ensures
        r == soft_nonzero(x@),
{
    U256::from_u64(0).lt(x) && x.lt(&U256::scalar_modulus())
}

/// Parity of a field element's canonical representative.
pub fn is_even(x: &U256) -> (r: bool)
    ensures
        r == (x@ % 2 == 0),
{
    x.is_even()
}

} // verus!
