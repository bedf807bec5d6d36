use rand::rngs::StdRng;
use rand::SeedableRng;
use zkimg::circuit::{verify, SchnorrInput};
use zkimg::curve::{
    fixed_base_multiply, points_equal, subtract_assume_unequal, variable_base_multiply,
    CurvePoint,
};
use zkimg::field::{is_even, is_in_base_field_range, is_soft_nonzero, U256};
use zkimg::util::{random_schnorr_signature_input, sign_with_nonce};

fn add_one(v: &U256) -> U256 {
    let mut limbs = v.limbs;
    for limb in limbs.iter_mut() {
        let (sum, carry) = limb.overflowing_add(1);
        *limb = sum;
        if !carry {
            break;
        }
    }
    U256::from_limbs(limbs)
}

fn one() -> U256 {
    U256::from_u64(1)
}

fn two_g() -> CurvePoint {
    CurvePoint {
        x: U256::from_limbs([
            0xabac09b95c709ee5,
            0x5c778e4b8cef3ca7,
            0x3045406e95c07cd8,
            0xc6047f9441ed7d6d,
        ]),
        y: U256::from_limbs([
            0x236431a950cfe52a,
            0xf7f632653266d0e1,
            0xa3c58419466ceaee,
            0x1ae168fea63dc339,
        ]),
    }
}

/// Signs `msg_hash` with `sk`, drawing nonces until one gives an even y.
fn sign(sk: &U256, msg_hash: &U256, seed: u8) -> (SchnorrInput, U256) {
    let mut rng = StdRng::from_seed([seed; 32]);
    loop {
        let k = U256::from_limbs([
            rand::Rng::gen(&mut rng),
            rand::Rng::gen(&mut rng),
            rand::Rng::gen(&mut rng),
            0,
        ]);
        if let Some(v) = sign_with_nonce(sk, msg_hash, &k) {
            return (v, k);
        }
    }
}

#[test]
fn soft_nonzero_bounds() {
    let n = U256::scalar_modulus();
    let n_minus_one = n.sub(&one());
    assert!(!is_soft_nonzero(&U256::from_u64(0)));
    assert!(!is_soft_nonzero(&n));
    assert!(is_soft_nonzero(&n_minus_one));
    assert!(is_soft_nonzero(&one()));
    assert!(!is_soft_nonzero(&add_one(&n)));
}

#[test]
fn parity_of_representatives() {
    let p = U256::base_modulus();
    let p_minus_one = p.sub(&one());
    assert!(is_even(&U256::from_u64(0)));
    assert!(!is_even(&one()));
    assert!(is_even(&p_minus_one));
    assert!(!is_even(&p));
    assert!(!is_even(&U256::from_limbs([7, 2, 4, 6])));
}

#[test]
fn base_field_range_bounds() {
    let p = U256::base_modulus();
    assert!(is_in_base_field_range(&U256::from_u64(0)));
    assert!(is_in_base_field_range(&p.sub(&one())));
    assert!(!is_in_base_field_range(&p));
    assert!(!is_in_base_field_range(&U256::from_limbs([u64::MAX; 4])));
}

#[test]
fn integer_arithmetic() {
    let a = U256::from_limbs([0, 0, 1, 0]);
    let b = U256::from_u64(1);
    let d = a.sub(&b);
    assert_eq!(d.limbs, [u64::MAX, u64::MAX, 0, 0]);
    assert!(b.lt(&a));
    assert!(!a.lt(&b));
    assert!(a.eq_value(&U256::from_limbs([0, 0, 1, 0])));
    let n = U256::scalar_modulus();
    assert!(n.reduce_mod_scalar().eq_value(&U256::from_u64(0)));
    assert!(add_one(&n).reduce_mod_scalar().eq_value(&one()));
    let top = U256::from_limbs([u64::MAX; 4]);
    let expected = top.sub(&n);
    assert!(top.reduce_mod_scalar().eq_value(&expected));
    assert!(U256::from_u64(5).reduce_mod_scalar().eq_value(&U256::from_u64(5)));
}

#[test]
fn point_validation() {
    let g = CurvePoint::generator();
    assert_eq!(CurvePoint::from_coordinates(g.x, g.y), Some(g));
    assert_eq!(CurvePoint::from_coordinates(two_g().x, two_g().y), Some(two_g()));
    assert_eq!(CurvePoint::from_coordinates(g.x, add_one(&g.y)), None);
    assert_eq!(CurvePoint::from_coordinates(U256::from_u64(0), U256::from_u64(0)), None);
    assert_eq!(CurvePoint::from_coordinates(U256::base_modulus(), g.y), None);
}

#[test]
fn curve_operations() {
    let g = CurvePoint::generator();
    assert!(points_equal(&fixed_base_multiply(&one()), &g));
    assert!(points_equal(&fixed_base_multiply(&U256::from_u64(2)), &two_g()));
    assert!(points_equal(&variable_base_multiply(&g, &U256::from_u64(2)), &two_g()));
    assert!(points_equal(&subtract_assume_unequal(&two_g(), &g), &g));
    let identity = CurvePoint::identity();
    assert!(points_equal(&fixed_base_multiply(&U256::from_u64(0)), &identity));
    assert!(!points_equal(&g, &identity));
    let n_minus_one = U256::scalar_modulus().sub(&one());
    let minus_g = fixed_base_multiply(&n_minus_one);
    assert!(g.x.eq_value(&minus_g.x));
    assert!(!g.y.eq_value(&minus_g.y));
}

#[test]
fn generated_vectors_verify() {
    for seed in 0..4u8 {
        let mut rng = StdRng::from_seed([seed; 32]);
        let v = random_schnorr_signature_input(&mut rng, 64).expect("an even nonce point");
        assert!(v.verify());
        assert!(verify(&v.pk, &v.r, &v.s, &v.msg_hash));
    }
}

#[test]
fn no_draws_gives_nothing() {
    let mut rng = StdRng::from_seed([9; 32]);
    assert_eq!(random_schnorr_signature_input(&mut rng, 0), None);
}

#[test]
fn perturbed_response_is_rejected() {
    let mut rng = StdRng::from_seed([3; 32]);
    let v = random_schnorr_signature_input(&mut rng, 64).unwrap();
    assert!(v.verify());
    let s1 = add_one(&v.s);
    let s2 = add_one(&s1);
    assert!(!verify(&v.pk, &v.r, &s1, &v.msg_hash));
    assert!(!verify(&v.pk, &v.r, &s2, &v.msg_hash));
    assert!(!verify(&v.pk, &v.r, &v.s, &add_one(&v.msg_hash)));
    assert!(!verify(&v.pk, &add_one(&v.r), &v.s, &v.msg_hash));
}

#[test]
fn secret_key_one_scenario() {
    let g = CurvePoint::generator();
    let (v, k) = sign(&one(), &one(), 1);
    assert_eq!(v.pk, g);
    assert!(v.s.eq_value(&add_one(&k)));
    assert!(verify(&g, &v.r, &v.s, &one()));
    assert!(!verify(&g, &v.r, &add_one(&v.s), &one()));
}

#[test]
fn recovered_nonce_round_trip() {
    let sk = U256::from_limbs([0x1234_5678, 0x9abc, 0xdef0, 0x42]);
    let e = U256::from_limbs([0xfeed, 0xbeef, 0xcafe, 0x17]);
    let (v, k) = sign(&sk, &e, 5);
    let s_g = fixed_base_multiply(&v.s);
    let e_p = variable_base_multiply(&v.pk, &v.msg_hash);
    assert!(!s_g.x.eq_value(&e_p.x));
    let nonce = subtract_assume_unequal(&s_g, &e_p);
    assert!(points_equal(&nonce, &fixed_base_multiply(&k)));
    assert!(is_even(&nonce.y));
    assert!(nonce.x.reduce_mod_scalar().eq_value(&v.r));
}

#[test]
fn odd_nonce_point_is_refused() {
    let sk = one();
    let e = one();
    // G has an even y-coordinate, so -G = (n - 1)G has an odd one
    let n_minus_one = U256::scalar_modulus().sub(&one());
    assert!(sign_with_nonce(&sk, &e, &one()).is_some());
    assert!(sign_with_nonce(&sk, &e, &n_minus_one).is_none());
}

#[test]
fn out_of_range_commitment_is_rejected() {
    let mut rng = StdRng::from_seed([7; 32]);
    let v = random_schnorr_signature_input(&mut rng, 64).unwrap();
    let p = U256::base_modulus();
    assert!(!verify(&v.pk, &p, &v.s, &v.msg_hash));
    assert!(!verify(&v.pk, &U256::from_limbs([u64::MAX; 4]), &v.s, &v.msg_hash));
}

#[test]
fn out_of_range_scalars_are_rejected() {
    let mut rng = StdRng::from_seed([8; 32]);
    let v = random_schnorr_signature_input(&mut rng, 64).unwrap();
    let n = U256::scalar_modulus();
    let zero = U256::from_u64(0);
    assert!(!verify(&v.pk, &v.r, &zero, &v.msg_hash));
    assert!(!verify(&v.pk, &v.r, &n, &v.msg_hash));
    assert!(!verify(&v.pk, &v.r, &v.s, &zero));
    assert!(!verify(&v.pk, &v.r, &v.s, &n));
}
