use neuronveil::bit::bits_from_bytes;
use neuronveil::com::Com;
use neuronveil::reconstruct::{reconstruct_bool_vec, reconstruct_com_vec, reconstruct_matrix};
use neuronveil::rng::{coms_from_bytes, new_system_random, sample_com};
use neuronveil::split::{split_bool_vec, split_com_matrix, split_com_vec};
use neuronveil::tensor::Matrix;

fn com_vec(raws: &[u16]) -> Vec<Com> {
    raws.iter().map(|r| Com { raw: *r }).collect()
}

fn raws(v: &[Com]) -> Vec<u16> {
    v.iter().map(|c| c.raw).collect()
}

#[test]
fn split_then_reconstruct_is_identity_on_vectors() {
    let rng = new_system_random();
    let v = com_vec(&[0, 1, 16, 0x7fff, 0x8000, 0xffff]);
    let (s0, s1) = split_com_vec(&v, &rng).unwrap();
    let back = reconstruct_com_vec(&s0, &s1);
    assert_eq!(raws(&back), raws(&v));
}

#[test]
fn split_then_reconstruct_is_identity_on_empty() {
    let rng = new_system_random();
    let v: Vec<Com> = Vec::new();
    let (s0, s1) = split_com_vec(&v, &rng).unwrap();
    assert_eq!(reconstruct_com_vec(&s0, &s1).len(), 0);
}

#[test]
fn xor_split_then_reconstruct_is_identity_on_bits() {
    let rng = new_system_random();
    let v = vec![true, false, true, true, false, false, true];
    let (s0, s1) = split_bool_vec(&v, &rng).unwrap();
    let back = reconstruct_bool_vec(&s0, &s1);
    assert_eq!(back, v);
}

#[test]
fn split_then_reconstruct_is_identity_on_matrices() {
    let rng = new_system_random();
    let m = Matrix {
        rows: vec![com_vec(&[1, 2, 3]), com_vec(&[0xffff, 0x8000, 16]), com_vec(&[0, 4, 5])],
    };
    let (s0, s1) = split_com_matrix(&m, 3, &rng).unwrap();
    let back = reconstruct_matrix(&s0, &s1);
    assert_eq!(back.rows.len(), 3);
    for i in 0..3 {
        assert_eq!(raws(&back.rows[i]), raws(&m.rows[i]));
    }
}

#[test]
fn shares_differ_from_the_secret_in_shape_only() {
    // The sampling wrappers really fill the requested lengths.
    let rng = new_system_random();
    let v = sample_com(5, &rng).unwrap();
    assert_eq!(v.len(), 5);
    let bits = neuronveil::bit::sample(12, &rng).unwrap();
    assert_eq!(bits.len(), 12);
    let empty = sample_com(0, &rng).unwrap();
    assert_eq!(empty.len(), 0);
}

#[test]
fn two_splits_of_one_secret_reconstruct_alike() {
    let rng = new_system_random();
    let v = com_vec(&[100, 200, 300]);
    let (a0, a1) = split_com_vec(&v, &rng).unwrap();
    let (b0, b1) = split_com_vec(&v, &rng).unwrap();
    assert_eq!(raws(&reconstruct_com_vec(&a0, &a1)), raws(&v));
    assert_eq!(raws(&reconstruct_com_vec(&b0, &b1)), raws(&v));
}

#[test]
fn bits_unpack_least_significant_first() {
    // 0xa6 = 0b1010_0110: bits 1, 2, 5, 7 are set, LSB first.
    let bytes = vec![0xa6u8, 0x01];
    let bits = bits_from_bytes(&bytes, 9);
    assert_eq!(
        bits,
        vec![false, true, true, false, false, true, false, true, true]
    );
    // Truncation keeps only the first n bits.
    let three = bits_from_bytes(&vec![0xa6u8], 3);
    assert_eq!(three, vec![false, true, true]);
}

#[test]
fn scalars_unpack_little_endian() {
    let bytes = vec![0x34u8, 0x12, 0xff, 0xff];
    let coms = coms_from_bytes(&bytes, 2);
    assert_eq!(coms[0].raw, 0x1234);
    assert_eq!(coms[1].raw, 0xffff);
}
