//! Test vectors for the verifier, and the image helpers.

pub use crate::circuit::SchnorrInput;
use crate::circuit::{recovered_nonce, schnorr_valid};
use crate::curve::{fixed_base_multiply, generator_point, scalar_mul_of};
use crate::field::{scalar_add, scalar_modulus, scalar_mul, soft_nonzero, U256};
use halo2_base::halo2_proofs::arithmetic::Field;
use halo2_base::halo2_proofs::halo2curves::secp256k1::Fq;
use rand::rngs::{StdRng, ThreadRng};
use rand::Rng;
use vstd::prelude::*;

verus! {

#[verifier::external_type_specification]
#[verifier::external_body]
pub struct ExStdRng(StdRng);

#[verifier::external_type_specification]
#[verifier::external_body]
pub struct ExThreadRng(ThreadRng);

/// Relies on rand's `thread_rng`, the generator local to the thread.
pub assume_specification[ rand::thread_rng ]() -> ThreadRng;

/// Relies on halo2curves' `Fq::random`, which reduces eight drawn words
/// modulo `n`: a canonical scalar.
#[verifier::external_body]
fn random_scalar(rng: &mut StdRng) -> (r: U256)
    ensures
        r@ < scalar_modulus(),
{
    U256 { limbs: Fq::random(rng).into() }
}

/// Relies on rand's `Rng::gen_range` over `0..=255`: a value in that range.
#[verifier::external_body]
fn random_channel(rng: &mut ThreadRng) -> (r: u64)
    ensures
        r <= 255,
{
    rng.gen_range(0..=255)
}

/// `v` is the vector that secret key `sk`, challenge `e` and nonce `k` give:
/// `k·G` has an even y-coordinate, `r` is its x-coordinate,
/// `s = k + sk·e mod n`, and the public key is `sk·G`.
pub open spec fn signed_vector(v: SchnorrInput, sk: nat, e: nat, k: nat) -> bool {
    let nonce = scalar_mul_of(generator_point(), k);
    &&& nonce.1 % 2 == 0
    &&& v.r@ == nonce.0
    &&& v.s@ == (k + sk * e) % scalar_modulus()
    &&& v.msg_hash@ == e
    &&& v.pk@ == scalar_mul_of(generator_point(), sk)
}

/// Signs the challenge `msg_hash` with secret key `sk` and nonce `k`, when
/// `k·G` has an even y-coordinate; `None` when it is odd.
pub fn sign_with_nonce(sk: &U256, msg_hash: &U256, k: &U256) -> (res: Option<SchnorrInput>)
    requires
        sk@ < scalar_modulus(),
        msg_hash@ < scalar_modulus(),
        k@ < scalar_modulus(),
    ensures
        res.is_some() == (scalar_mul_of(generator_point(), k@).1 % 2 == 0),
        res.is_some() ==> signed_vector(res.unwrap(), sk@, msg_hash@, k@),
{
    let nonce = fixed_base_multiply(k);
    if !nonce.y.is_even() {
        return None;
    }
    let pk = fixed_base_multiply(sk);
    let product = scalar_mul(sk, msg_hash);
    let s = scalar_add(k, &product);
    proof {
        let n = scalar_modulus() as int;
        vstd::arithmetic::div_mod::lemma_small_mod(k@, n as nat);
        vstd::arithmetic::div_mod::lemma_add_mod_noop(k@ as int, (sk@ * msg_hash@) as int, n);
    }
    Some(SchnorrInput { r: nonce.x, s, msg_hash: *msg_hash, pk })
}

/// Draws a secret key and a challenge, then nonces until one gives a nonce
/// point with an even y-coordinate, at most `max_draws` of them; `None` when
/// none of them did.
pub fn random_schnorr_signature_input(rng: &mut StdRng, max_draws: u64) -> (res: Option<
    SchnorrInput,
>)
    ensures
        max_draws == 0 ==> res.is_none(),
        res.is_some() ==> res.unwrap().msg_hash@ < scalar_modulus(),
        res.is_some() ==> exists|sk: nat, k: nat|
            sk < scalar_modulus() && k < scalar_modulus() && #[trigger] signed_vector(
                res.unwrap(),
                sk,
                res.unwrap().msg_hash@,
                k,
            ),
{
    let sk = random_scalar(rng);
    let msg_hash = random_scalar(rng);
    let mut draws: u64 = 0;
    while draws < max_draws
        invariant
            sk@ < scalar_modulus(),
            msg_hash@ < scalar_modulus(),
        decreases max_draws - draws,
    {
        let k = random_scalar(rng);
        let signed = sign_with_nonce(&sk, &msg_hash, &k);
        if let Some(v) = signed {
            return Some(v);
        }
        draws = draws + 1;
    }
    None
}

/// A vector that `sk`, `e` and `k` give is accepted by the verifier when
/// its response and challenge are nonzero, `s·G` and `e·pk` have distinct
/// x-coordinates, `s·G - e·pk` is the nonce point `k·G`, and that point's
/// x-coordinate is below `n`. The group law that makes the nonce point come
/// back is the curve's, and is not stated here.
pub proof fn lemma_accepts_when_nonce_recovered(v: SchnorrInput, sk: nat, e: nat, k: nat)
    requires
        signed_vector(v, sk, e, k),
        soft_nonzero(v.s@),
        soft_nonzero(e),
        scalar_mul_of(generator_point(), v.s@).0 != scalar_mul_of(v.pk@, e).0,
        recovered_nonce(v.pk@, v.s@, e) == scalar_mul_of(generator_point(), k),
        scalar_mul_of(generator_point(), k).0 < scalar_modulus(),
    ensures
        schnorr_valid(v.pk@, v.r@, v.s@, v.msg_hash@),
{
    vstd::arithmetic::div_mod::lemma_small_mod(v.r@, scalar_modulus());
}

/// Position of channel `c` of pixel `(col, row)` in an RGB image `width`
/// pixels wide, stored row by row.
pub open spec fn pixel_index(width: int, col: int, row: int, c: int) -> int {
    (row * width + col) * 3 + c
}

/// A random RGB image of `width × height` pixels: three channels per pixel,
/// each in `0..=255`.
pub fn generate_image(width: usize, height: usize) -> (image: Vec<u64>)
    requires
        width * height * 3 <= usize::MAX,
    ensures
        image@.len() == width * height * 3,
        forall|i: int| 0 <= i < image@.len() ==> #[trigger] image@[i] <= 255,
{
    let len = width * height * 3;
    let mut rng = rand::thread_rng();
    let mut image: Vec<u64> = Vec::new();
    let mut i: usize = 0;
    while i < len
        invariant
            i <= len,
            image@.len() == i,
            forall|j: int| 0 <= j < image@.len() ==> #[trigger] image@[j] <= 255,
        decreases len - i,
    {
        let v = random_channel(&mut rng);
        image.push(v);
        i = i + 1;
    }
    image
}

/// The `crop_width × crop_height` block of `image` (an RGB image `width`
/// pixels wide) whose top-left pixel is `(x, y)`.
pub fn crop_image(
    image: &Vec<u64>,
    width: usize,
    x: usize,
    y: usize,
    crop_width: usize,
    crop_height: usize,
) -> (cropped: Vec<u64>)
    requires
        crop_width * crop_height * 3 <= usize::MAX,
        crop_width == 0 || crop_height == 0 || (y + crop_height - 1 <= usize::MAX && pixel_index(
            width as int,
            x + crop_width - 1,
            y + crop_height - 1,
            2,
        ) < image@.len()),
    ensures
        cropped@.len() == crop_width * crop_height * 3,
        forall|col: int, row: int, c: int|
            0 <= col < crop_width && 0 <= row < crop_height && 0 <= c < 3 ==> cropped@[
            #[trigger] pixel_index(crop_width as int, col, row, c)] == image@[pixel_index(
                width as int,
                x + col,
                y + row,
                c,
            )],
{
    let mut cropped: Vec<u64> = Vec::new();
    let mut new_y: usize = 0;
    while new_y < crop_height
        invariant
            new_y <= crop_height,
            crop_width * crop_height * 3 <= usize::MAX,
            crop_width == 0 || crop_height == 0 || (y + crop_height - 1 <= usize::MAX && pixel_index(
                width as int,
                x + crop_width - 1,
                y + crop_height - 1,
                2,
            ) < image@.len()),
            cropped@.len() == new_y * crop_width * 3,
            forall|col: int, row: int, c: int|
                0 <= col < crop_width && 0 <= row < new_y && 0 <= c < 3 ==> cropped@[#[trigger] pixel_index(
                    crop_width as int,
                    col,
                    row,
                    c,
                )] == image@[pixel_index(width as int, x + col, y + row, c)],
        decreases crop_height - new_y,
    {
        let mut new_x: usize = 0;
        while new_x < crop_width
            invariant
                new_y < crop_height,
                new_x <= crop_width,
                crop_width * crop_height * 3 <= usize::MAX,
                crop_width == 0 || (y + crop_height - 1 <= usize::MAX && pixel_index(
                    width as int,
                    x + crop_width - 1,
                    y + crop_height - 1,
                    2,
                ) < image@.len()),
                cropped@.len() == (new_y * crop_width + new_x) * 3,
                forall|col: int, row: int, c: int|
                    0 <= col < crop_width && 0 <= row < new_y + 1 && 0 <= c < 3 && (row < new_y || col
                        < new_x) ==> cropped@[#[trigger] pixel_index(crop_width as int, col, row, c)]
                        == image@[pixel_index(width as int, x + col, y + row, c)],
            decreases crop_width - new_x,
        {
            let ghost len0 = cropped@.len();
            let image_len = image.len();
            proof {
                let w = width as int;
                let top = y + crop_height - 1;
                let row = y + new_y;
                assert(0 <= row * w <= top * w) by (nonlinear_arith)
                    requires
                        0 <= row <= top,
                        0 <= w,
                ;
                assert(pixel_index(w, x + new_x, row, 2) <= pixel_index(w, x + crop_width - 1, top, 2)
                    < image_len);
                assert((new_y * crop_width + new_x) * 3 + 3 <= crop_width * crop_height * 3)
                    by (nonlinear_arith)
                    requires
                        new_y < crop_height,
                        new_x < crop_width,
                ;
            }
            let old_x = x + new_x;
            let old_y = y + new_y;
            let old_index = (old_y * width + old_x) * 3;
            cropped.push(image[old_index]);
            cropped.push(image[old_index + 1]);
            cropped.push(image[old_index + 2]);
            proof {
                assert forall|col: int, row: int, c: int|
                    0 <= col < crop_width && 0 <= row < new_y + 1 && 0 <= c < 3 && (row < new_y || col
                        < new_x + 1) implies cropped@[#[trigger] pixel_index(crop_width as int, col, row, c)]
                    == image@[pixel_index(width as int, x + col, y + row, c)] by {
                    if row < new_y || col < new_x {
                        assert(row * crop_width + col < new_y * crop_width + new_x) by (nonlinear_arith)
                            requires
                                0 <= col < crop_width,
                                0 <= row,
                                row < new_y || (row == new_y && col < new_x),
                        ;
                        assert(pixel_index(crop_width as int, col, row, c) < len0);
                    } else {
                        assert(row == new_y && col == new_x);
                        assert(pixel_index(crop_width as int, col, row, c) == len0 + c);
                    }
                }
            }
            new_x = new_x + 1;
        }
        proof {
            assert((new_y * crop_width + crop_width) * 3 == (new_y + 1) * crop_width * 3) by (nonlinear_arith);
        }
        new_y = new_y + 1;
    }
    proof {
        assert(crop_height * crop_width * 3 == crop_width * crop_height * 3) by (nonlinear_arith);
    }
    cropped
}

} // verus!
