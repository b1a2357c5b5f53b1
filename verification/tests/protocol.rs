use neuronveil::bitxa::{
    bitxa_delta_y_share, bitxa_ef_shares, bitxa_finish, bitxa_mask_message, BitXAInteraction,
};
use neuronveil::com::Com;
use neuronveil::drelu::{drelu_finish, drelu_masked_share, generate_drelu_keys, DReLUInteraction};
use neuronveil::reconstruct::{reconstruct_bool_vec, reconstruct_com_vec};
use neuronveil::rng::{new_system_random, sample_com};
use neuronveil::signed_comparison::generate_signed_comparison_keys;
use neuronveil::split::{split_bool_vec, split_com_vec};
use neuronveil::tensor::{vec_b2a, vec_div256, vec_zero};
use neuronveil::triplet::MultiplicationTripletShare;

fn com_vec(raws: &[u16]) -> Vec<Com> {
    raws.iter().map(|r| Com { raw: *r }).collect()
}

fn raws(v: &[Com]) -> Vec<u16> {
    v.iter().map(|c| c.raw).collect()
}

#[test]
fn hadamard_protocol_with_zero_triplets() {
    // x = [1.0, 2.0], y = [3.0, 4.0]: the two output shares sum to
    // [3.0, 8.0] exactly.
    let rng = new_system_random();
    let x = com_vec(&[16, 32]);
    let y = com_vec(&[48, 64]);
    let (x0, x1) = split_com_vec(&x, &rng).unwrap();
    let (y0, y1) = split_com_vec(&y, &rng).unwrap();
    let mt = MultiplicationTripletShare::new(2);
    let msg0 = mt.hadamard_message(&x0, &y0);
    let msg1 = mt.hadamard_message(&x1, &y1);
    let out0 = mt.hadamard_finish(true, &msg0, &msg1);
    let out1 = mt.hadamard_finish(false, &msg1, &msg0);
    let sum = reconstruct_com_vec(&out0, &out1);
    assert_eq!(raws(&sum), vec![48, 128]);
}

#[test]
fn drelu_reconstructs_the_sign_bits() {
    // Raw inputs 1, 0, -1, -32768: non-negative exactly for the first two.
    let rng = new_system_random();
    let x = com_vec(&[1, 0, 0xffff, 0x8000]);
    let (x0, x1) = split_com_vec(&x, &rng).unwrap();
    let (k0, k1) = generate_drelu_keys(4, &rng).unwrap();
    let m0 = drelu_masked_share(&x0, &k0);
    let m1 = drelu_masked_share(&x1, &k1);
    let masked = DReLUInteraction::reconstruct((&m0, &m1));
    let o0 = drelu_finish(true, &k0, &masked);
    let o1 = drelu_finish(false, &k1, &masked);
    let bits = reconstruct_bool_vec(&o0, &o1);
    assert_eq!(bits, vec![true, true, false, false]);
}

#[test]
fn signed_comparison_keys_share_the_output_mask() {
    let rng = new_system_random();
    let r1 = vec_zero(3);
    let r2 = vec_zero(3);
    let r_out = vec![true, false, true];
    let (k0, k1) = generate_signed_comparison_keys(&r1, &r2, &r_out, &rng).unwrap();
    let joined = reconstruct_bool_vec(&k0.r_shares, &k1.r_shares);
    assert_eq!(joined, r_out);
    assert_eq!(raws(&k0.ddcf_keys.alpha), raws(&k1.ddcf_keys.alpha));
    assert_eq!(k0.ddcf_keys.invert, k1.ddcf_keys.invert);
}

#[test]
fn signed_comparison_evaluations_xor_to_sign_and_mask() {
    // With zero input masks, z equals masked_x, and the two evaluations
    // XOR to r_out flipped by the sign bit of z.
    let rng = new_system_random();
    let r1 = vec_zero(2);
    let r2 = vec_zero(2);
    let r_out = vec![true, false];
    let (k0, k1) = generate_signed_comparison_keys(&r1, &r2, &r_out, &rng).unwrap();
    let masked_x = com_vec(&[5, 0x8005]);
    let masked_y = vec_zero(2);
    let e0 = k0.evaluate(true, &masked_x, &masked_y);
    let e1 = k1.evaluate(false, &masked_x, &masked_y);
    let joined = reconstruct_bool_vec(&e0, &e1);
    // r_out ^ msb: [true ^ false, false ^ true].
    assert_eq!(joined, vec![true, true]);
}

fn bitxa_two_party(x: &[u16], y: &[bool]) -> Vec<u16> {
    let rng = new_system_random();
    let n = x.len();
    let xv = com_vec(x);
    let yv: Vec<bool> = y.to_vec();
    let (x0, x1) = split_com_vec(&xv, &rng).unwrap();
    let (y0, y1) = split_bool_vec(&yv, &rng).unwrap();

    let mb0 = neuronveil::bit::sample(n, &rng).unwrap();
    let mb1 = neuronveil::bit::sample(n, &rng).unwrap();
    let ma0 = vec_b2a(&mb0);
    let ma1 = vec_b2a(&mb1);
    let (e0, f0) = bitxa_ef_shares(true, &ma0);
    let (e1, f1) = bitxa_ef_shares(false, &ma1);
    let mt = MultiplicationTripletShare::new(n);
    let msg0 = mt.hadamard_message(&e0, &f0);
    let msg1 = mt.hadamard_message(&e1, &f1);
    let ef0 = mt.hadamard_finish(true, &msg0, &msg1);
    let ef1 = mt.hadamard_finish(false, &msg1, &msg0);
    let dy0 = bitxa_delta_y_share(&e0, &f0, &ef0);
    let dy1 = bitxa_delta_y_share(&e1, &f1, &ef1);

    let dx0 = vec_div256(&sample_com(n, &rng).unwrap());
    let dx1 = vec_div256(&sample_com(n, &rng).unwrap());
    let msg2_0 = mt.hadamard_message(&dx0, &dy0);
    let msg2_1 = mt.hadamard_message(&dx1, &dy1);
    let dz0 = mt.hadamard_finish(true, &msg2_0, &msg2_1);
    let dz1 = mt.hadamard_finish(false, &msg2_1, &msg2_0);

    let m3_0 = bitxa_mask_message(&x0, &dx0, &y0, &mb0);
    let m3_1 = bitxa_mask_message(&x1, &dx1, &y1, &mb1);
    let deltas0 = BitXAInteraction::reconstruct((&m3_0, &m3_1));
    let deltas1 = BitXAInteraction::reconstruct((&m3_1, &m3_0));
    let out0 = bitxa_finish(true, &dx0, &dy0, &dz0, &deltas0);
    let out1 = bitxa_finish(false, &dx1, &dy1, &dz1, &deltas1);
    raws(&reconstruct_com_vec(&out0, &out1))
}

#[test]
fn bitxa_multiplies_bits_by_values() {
    // x = [1.0, 2.0, 3.0] raw, y = [1, 0, 1]: sum-reconstructs to
    // [16, 0, 48] raw, that is [1.0, 0.0, 3.0].
    assert_eq!(bitxa_two_party(&[16, 32, 48], &[true, false, true]), vec![16, 0, 48]);
}

#[test]
fn bitxa_handles_negative_values_and_all_bit_patterns() {
    assert_eq!(
        bitxa_two_party(&[0xfff0, 0x8000, 0, 0xffff], &[true, true, false, false]),
        vec![0xfff0, 0x8000, 0, 0]
    );
}
