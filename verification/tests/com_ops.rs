use neuronveil::com::{
    adjust_product, com_add, com_and, com_div256, com_mul, com_mul_raw, com_neg, com_not, com_sub,
    from_bits, get_msb, to_bits, Com,
};

fn c(raw: u16) -> Com {
    Com { raw }
}

#[test]
fn add_wraps_modulo_two_to_sixteen() {
    assert_eq!(com_add(c(0x7fff), c(1)).raw, 0x8000);
    assert_eq!(com_add(c(0xffff), c(1)).raw, 0);
    assert_eq!(com_add(c(16), c(32)).raw, 48);
}

#[test]
fn sub_and_neg_wrap() {
    assert_eq!(com_sub(c(0), c(1)).raw, 0xffff);
    assert_eq!(com_sub(c(48), c(16)).raw, 32);
    assert_eq!(com_neg(c(16)).raw, 0xfff0);
    assert_eq!(com_neg(c(0)).raw, 0);
}

#[test]
fn mul_rescales_once() {
    // 1.5 * 2.5 = 3.75: raw 24 * raw 40 -> raw 60.
    assert_eq!(com_mul(c(24), c(40)).raw, 60);
    // 1.0 is the multiplicative identity (raw 16).
    assert_eq!(com_mul(c(16), c(0xfff0)).raw, 0xfff0);
    // (-1.0) * (-1.0) = 1.0.
    assert_eq!(com_mul(c(0xfff0), c(0xfff0)).raw, 16);
}

#[test]
fn adjust_product_matches_fixed_point_product() {
    // 1.5 * 2.5: the raw product 960 rescales to 60 exactly.
    assert_eq!(adjust_product(com_mul_raw(c(24), c(40))).raw, 60);
    // 0.0625 * 0.0625 floors to zero: within one ulp of 1/256.
    assert_eq!(adjust_product(com_mul_raw(c(1), c(1))).raw, 0);
    // A negative product floors toward minus infinity: -0.0625 * 0.0625.
    assert_eq!(adjust_product(com_mul_raw(c(0xffff), c(1))).raw, 0xffff);
}

#[test]
fn bitwise_operations() {
    assert_eq!(com_not(c(0x0001)).raw, 0xfffe);
    assert_eq!(com_and(c(0xffff), 0x7fff).raw, 0x7fff);
    assert!(get_msb(c(0x8000)));
    assert!(get_msb(c(0xffff)));
    assert!(!get_msb(c(0)));
    assert!(!get_msb(c(0x7fff)));
}

#[test]
fn bits_round_trip() {
    for raw in [0u16, 1, 16, 0x7fff, 0x8000, 0xffff] {
        assert_eq!(to_bits(from_bits(raw)), raw);
    }
}

#[test]
fn div256_floors_signed() {
    assert_eq!(com_div256(c(512)).raw, 2);
    // -256 / 256 = -1.
    assert_eq!(com_div256(c(0xff00)).raw, 0xffff);
    assert_eq!(com_div256(c(255)).raw, 0);
}
