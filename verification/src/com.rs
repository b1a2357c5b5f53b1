use vstd::prelude::*;
use vstd::arithmetic::div_mod::{
    lemma_add_mod_noop, lemma_div_multiples_vanish, lemma_fundamental_div_mod,
    lemma_hoist_over_denominator, lemma_mod_multiples_vanish, lemma_small_mod, lemma_sub_mod_noop,
};
use vstd::arithmetic::mul::lemma_mul_is_commutative;

verus! {

/// A 16-bit signed fixed-point scalar with 4 fractional bits: the domain in
/// which every plaintext value of the protocol lives ("Com" for
/// communication). `raw` holds the two's-complement bit pattern; every
/// arithmetic operation wraps modulo 2^16.
#[derive(Clone, Copy, PartialEq, Eq, Structural, Debug)]
pub struct Com {
    pub raw: u16,
}

/// Raw bit pattern of the fixed-point number one (2^4).
pub const ONE_RAW: u16 = 16;

/// Mask selecting every raw bit except the sign bit.
pub const SIGN_CLEAR_MASK: u16 = 0x7fff;

/// The signed (two's-complement) reading of a raw 16-bit pattern.
pub open spec fn to_signed(a: u16) -> int {
    if a < 0x8000 {
        a as int
    } else {
        a as int - 0x10000
    }
}

/// The raw pattern holding an integer reduced modulo 2^16.
pub open spec fn from_int(v: int) -> u16 {
    (v % 0x10000) as u16
}

pub open spec fn spec_zero() -> Com {
    Com { raw: 0 }
}

pub open spec fn spec_one() -> Com {
    Com { raw: ONE_RAW }
}

pub open spec fn spec_add(a: Com, b: Com) -> Com {
    Com { raw: from_int(a.raw + b.raw) }
}

pub open spec fn spec_sub(a: Com, b: Com) -> Com {
    Com { raw: from_int(a.raw - b.raw) }
}

pub open spec fn spec_neg(a: Com) -> Com {
    Com { raw: from_int(-(a.raw as int)) }
}

/// The raw (unscaled) wrapping product of two scalars.
pub open spec fn spec_mul_raw(a: Com, b: Com) -> Com {
    Com { raw: from_int(to_signed(a.raw) * to_signed(b.raw)) }
}

/// The fixed-point product: the wide signed product of the raw integers,
/// rescaled once by flooring division by 2^4, then wrapped to 16 bits.
pub open spec fn spec_mul(a: Com, b: Com) -> Com {
    Com { raw: from_int(to_signed(a.raw) * to_signed(b.raw) / 16) }
}

/// Rescaling of a raw product: flooring division of the signed raw integer
/// by 2^4, restoring fixed-point units after a multiplication.
pub open spec fn spec_adjust(a: Com) -> Com {
    Com { raw: from_int(to_signed(a.raw) / 16) }
}

/// Flooring division of the signed raw integer by 2^8.
pub open spec fn spec_div256(a: Com) -> Com {
    Com { raw: from_int(to_signed(a.raw) / 256) }
}

pub open spec fn spec_not(a: Com) -> Com {
    Com { raw: !a.raw }
}

pub open spec fn spec_and(a: Com, mask: u16) -> Com {
    Com { raw: a.raw & mask }
}

/// The most significant (sign) bit of the raw pattern.
pub open spec fn spec_msb(a: Com) -> bool {
    a.raw >= 0x8000
}

/// The arithmetic image of a bit: the fixed-point one for a set bit, zero
/// otherwise.
pub open spec fn spec_b2a(b: bool) -> Com {
    if b {
        spec_one()
    } else {
        spec_zero()
    }
}

pub fn com_from_bit(b: bool) -> (r: Com)
    ensures
        r == spec_b2a(b),
{
    if b {
        Com { raw: ONE_RAW }
    } else {
        Com { raw: 0 }
    }
}

/// Builds a scalar from its raw bit pattern.
pub fn from_bits(bits: u16) -> (r: Com)
    ensures
        r == (Com { raw: bits }),
{
    Com { raw: bits }
}

/// Exposes the raw bit pattern.
pub fn to_bits(a: Com) -> (r: u16)
    ensures
        r == a.raw,
{
    a.raw
}

pub fn com_add(a: Com, b: Com) -> (r: Com)
    ensures
        r == spec_add(a, b),
{
    let s: u32 = a.raw as u32 + b.raw as u32;
    let m: u32 = s % 0x10000;
    Com { raw: m as u16 }
}

pub fn com_sub(a: Com, b: Com) -> (r: Com)
    ensures
        r == spec_sub(a, b),
{
    let s: u32 = a.raw as u32 + 0x10000 - b.raw as u32;
    let m: u32 = s % 0x10000;
    proof {
        lemma_mod_multiples_vanish(1, a.raw - b.raw, 0x10000);
    }
    Com { raw: m as u16 }
}

pub fn com_neg(a: Com) -> (r: Com)
    ensures
        r == spec_neg(a),
{
    let s: u32 = 0x10000 - a.raw as u32;
    let m: u32 = s % 0x10000;
    proof {
        lemma_mod_multiples_vanish(1, -(a.raw as int), 0x10000);
    }
    Com { raw: m as u16 }
}

pub fn com_mul(a: Com, b: Com) -> (r: Com)
    ensures
        r == spec_mul(a, b),
{
    let sa: i64 = if a.raw < 0x8000 {
        a.raw as i64
    } else {
        a.raw as i64 - 0x10000
    };
    let sb: i64 = if b.raw < 0x8000 {
        b.raw as i64
    } else {
        b.raw as i64 - 0x10000
    };
    proof {
        assert(-0x40000000 <= sa * sb <= 0x40000000) by (nonlinear_arith)
            requires
                -0x8000 <= sa <= 0x8000,
                -0x8000 <= sb <= 0x8000,
        ;
    }
    let wide: i64 = sa * sb;
    let shifted: u64 = (wide + 0x4000_0000) as u64;
    let q: u64 = shifted / 16;
    let m: u64 = q % 0x10000;
    proof {
        lemma_hoist_over_denominator(wide as int, 0x400_0000, 16);
        assert(q == wide as int / 16 + 0x400_0000);
        lemma_mod_multiples_vanish(0x400, wide as int / 16, 0x10000);
    }
    Com { raw: m as u16 }
}

pub fn com_mul_raw(a: Com, b: Com) -> (r: Com)
    ensures
        r == spec_mul_raw(a, b),
{
    let sa: i64 = if a.raw < 0x8000 {
        a.raw as i64
    } else {
        a.raw as i64 - 0x10000
    };
    let sb: i64 = if b.raw < 0x8000 {
        b.raw as i64
    } else {
        b.raw as i64 - 0x10000
    };
    proof {
        assert(-0x40000000 <= sa * sb <= 0x40000000) by (nonlinear_arith)
            requires
                -0x8000 <= sa <= 0x8000,
                -0x8000 <= sb <= 0x8000,
        ;
    }
    let wide: i64 = sa * sb;
    let shifted: u64 = (wide + 0x4000_0000) as u64;
    let m: u64 = shifted % 0x10000;
    proof {
        lemma_mod_multiples_vanish(0x4000, wide as int, 0x10000);
    }
    Com { raw: m as u16 }
}

/// Rescales a raw product by 2^4 (flooring on the signed raw integer).
pub fn adjust_product(a: Com) -> (r: Com)
    ensures
        r == spec_adjust(a),
{
    let sa: i64 = if a.raw < 0x8000 {
        a.raw as i64
    } else {
        a.raw as i64 - 0x10000
    };
    let shifted: u64 = (sa + 0x10_0000) as u64;
    let q: u64 = shifted / 16;
    let m: u64 = q % 0x10000;
    proof {
        lemma_hoist_over_denominator(sa as int, 0x1_0000, 16);
        assert(q == sa as int / 16 + 0x1_0000);
        lemma_mod_multiples_vanish(1, sa as int / 16, 0x10000);
    }
    Com { raw: m as u16 }
}

/// Divides the signed raw integer by 2^8, flooring.
pub fn com_div256(a: Com) -> (r: Com)
    ensures
        r == spec_div256(a),
{
    let sa: i64 = if a.raw < 0x8000 {
        a.raw as i64
    } else {
        a.raw as i64 - 0x10000
    };
    let shifted: u64 = (sa + 0x100_0000) as u64;
    let q: u64 = shifted / 256;
    let m: u64 = q % 0x10000;
    proof {
        lemma_hoist_over_denominator(sa as int, 0x1_0000, 256);
        assert(q == sa as int / 256 + 0x1_0000);
        lemma_mod_multiples_vanish(1, sa as int / 256, 0x10000);
    }
    Com { raw: m as u16 }
}

pub fn com_not(a: Com) -> (r: Com)
    ensures
        r == spec_not(a),
{
    Com { raw: !a.raw }
}

pub fn com_and(a: Com, mask: u16) -> (r: Com)
    ensures
        r == spec_and(a, mask),
{
    Com { raw: a.raw & mask }
}

/// Reads the most significant (sign) bit.
pub fn get_msb(a: Com) -> (r: bool)
    ensures
        r == spec_msb(a),
{
    a.raw >= 0x8000
}

/// A raw pattern and its signed reading agree modulo 2^16.
pub proof fn lemma_from_int_raw(c: Com)
    ensures
        from_int(c.raw as int) == c.raw,
        from_int(to_signed(c.raw)) == c.raw,
{
    lemma_small_mod(c.raw as nat, 0x10000);
    if c.raw >= 0x8000 {
        lemma_mod_multiples_vanish(1, c.raw as int - 0x10000, 0x10000);
    }
}

/// Reducing an integer in signed 16-bit range modulo 2^16 keeps its signed
/// reading.
pub proof fn lemma_to_signed_from_int(v: int)
    requires
        -0x8000 <= v < 0x8000,
    ensures
        to_signed(from_int(v)) == v,
{
    if v >= 0 {
        lemma_small_mod(v as nat, 0x10000);
    } else {
        lemma_mod_multiples_vanish(1, v, 0x10000);
        lemma_small_mod((v + 0x10000) as nat, 0x10000);
    }
}

/// Wrapping addition on patterns mirrors addition of the integers they stand
/// for.
pub proof fn lemma_add_of_from_int(x: int, y: int)
    ensures
        spec_add(Com { raw: from_int(x) }, Com { raw: from_int(y) }) == (Com {
            raw: from_int(x + y),
        }),
{
    lemma_add_mod_noop(x, y, 0x10000);
}

/// Wrapping subtraction on patterns mirrors subtraction of the integers they
/// stand for.
pub proof fn lemma_sub_of_from_int(x: int, y: int)
    ensures
        spec_sub(Com { raw: from_int(x) }, Com { raw: from_int(y) }) == (Com {
            raw: from_int(x - y),
        }),
{
    lemma_sub_mod_noop(x, y, 0x10000);
}

/// Wrapping negation on patterns mirrors negation of the integer.
pub proof fn lemma_neg_of_from_int(x: int)
    ensures
        spec_neg(Com { raw: from_int(x) }) == (Com { raw: from_int(-x) }),
{
    lemma_sub_mod_noop(0, x, 0x10000);
    lemma_small_mod(0, 0x10000);
}

/// Zero is the additive identity.
pub proof fn lemma_add_zero(a: Com)
    ensures
        spec_add(a, spec_zero()) == a,
        spec_add(spec_zero(), a) == a,
        spec_sub(a, spec_zero()) == a,
{
    lemma_from_int_raw(a);
}

/// A share and its complement recombine to the secret: adding back what was
/// subtracted cancels modulo 2^16.
pub proof fn lemma_add_sub_identity(a: Com, b: Com)
    ensures
        spec_add(a, spec_sub(b, a)) == b,
        spec_add(spec_sub(b, a), a) == b,
{
    lemma_from_int_raw(a);
    lemma_from_int_raw(b);
    lemma_add_of_from_int(a.raw as int, b.raw - a.raw);
    lemma_add_of_from_int(b.raw - a.raw, a.raw as int);
}

/// Wrapping addition of four terms may be regrouped freely.
pub proof fn lemma_add_rearrange(a: Com, b: Com, c: Com, d: Com)
    ensures
        spec_add(spec_add(a, b), spec_add(c, d)) == spec_add(spec_add(a, c), spec_add(b, d)),
{
    lemma_from_int_raw(a);
    lemma_from_int_raw(b);
    lemma_from_int_raw(c);
    lemma_from_int_raw(d);
    lemma_add_of_from_int(a.raw as int, b.raw as int);
    lemma_add_of_from_int(a.raw as int, c.raw as int);
    lemma_add_of_from_int(a.raw + b.raw, c.raw + d.raw);
    lemma_add_of_from_int(a.raw + c.raw, b.raw + d.raw);
    lemma_add_of_from_int(c.raw as int, d.raw as int);
    lemma_add_of_from_int(b.raw as int, d.raw as int);
}

/// Multiplying by zero gives zero.
pub proof fn lemma_mul_zero(a: Com)
    ensures
        spec_mul(a, spec_zero()) == spec_zero(),
        spec_mul(spec_zero(), a) == spec_zero(),
{
    let sa = to_signed(a.raw);
    assert(sa * 0 == 0) by (nonlinear_arith);
    assert(0 * sa == 0) by (nonlinear_arith);
    vstd::arithmetic::div_mod::lemma_div_of0(16);
    lemma_small_mod(0, 0x10000);
}

/// Multiplying by the fixed-point one is the identity: the rescaling undoes
/// the factor 2^4 exactly.
pub proof fn lemma_mul_one(a: Com)
    ensures
        spec_mul(a, spec_one()) == a,
        spec_mul(spec_one(), a) == a,
{
    let sa = to_signed(a.raw);
    lemma_mul_is_commutative(sa, 16);
    lemma_div_multiples_vanish(sa, 16);
    lemma_from_int_raw(a);
}

/// Multiplying by the arithmetic image of a bit selects the other factor or
/// zero.
pub proof fn lemma_mul_b2a(b: bool, x: Com)
    ensures
        spec_mul(spec_b2a(b), x) == (if b {
            x
        } else {
            spec_zero()
        }),
        spec_mul(x, spec_b2a(b)) == (if b {
            x
        } else {
            spec_zero()
        }),
{
    if b {
        lemma_mul_one(x);
    } else {
        lemma_mul_zero(x);
    }
}

/// Multiplying by the raw pattern 32 (the fixed-point two) doubles, since
/// the rescaling halves the factor exactly.
pub proof fn lemma_mul_two(x: Com)
    ensures
        spec_mul(x, Com { raw: 32 }) == spec_add(x, x),
        spec_mul(Com { raw: 32 }, x) == spec_add(x, x),
{
    let sx = to_signed(x.raw);
    assert(sx * 32 == 16 * (2 * sx)) by (nonlinear_arith);
    assert(32 * sx == 16 * (2 * sx)) by (nonlinear_arith);
    lemma_div_multiples_vanish(2 * sx, 16);
    if x.raw < 0x8000 {
        assert(2 * sx == x.raw + x.raw);
    } else {
        assert(2 * sx == x.raw + x.raw - 0x10000 * 2);
        lemma_mod_multiples_vanish(2, x.raw + x.raw, 0x10000);
    }
}

/// Multiplying by the raw pattern of minus one (0xfff0) negates, since the
/// rescaling removes the factor 16 exactly.
pub proof fn lemma_mul_neg_one(x: Com)
    ensures
        spec_mul(Com { raw: 0xfff0 }, x) == spec_neg(x),
        spec_mul(x, Com { raw: 0xfff0 }) == spec_neg(x),
{
    let sx = to_signed(x.raw);
    assert(to_signed(0xfff0) == -16);
    assert((-16) * sx == 16 * (-sx)) by (nonlinear_arith);
    assert(sx * (-16) == 16 * (-sx)) by (nonlinear_arith);
    lemma_div_multiples_vanish(-sx, 16);
    if x.raw < 0x8000 {
        assert(-sx == -(x.raw as int));
    } else {
        assert(-sx == -(x.raw as int) + 0x10000);
        lemma_mod_multiples_vanish(1, -(x.raw as int), 0x10000);
    }
}

/// Rescaling law: when the wide product of the two signed raw integers fits
/// in 16 bits, rescaling the wrapping raw product equals the fixed-point
/// product, and its raw integer is the exact ratio floored — within one
/// rescaling unit (one ulp, 1/16 in fixed-point value) of the exact product.
pub proof fn lemma_adjust_product(a: Com, b: Com)
    requires
        -0x8000 <= to_signed(a.raw) * to_signed(b.raw) < 0x8000,
    ensures
        spec_adjust(spec_mul_raw(a, b)) == spec_mul(a, b),
        16 * to_signed(spec_mul(a, b).raw) <= to_signed(a.raw) * to_signed(b.raw) < 16
            * to_signed(spec_mul(a, b).raw) + 16,
{
    let p = to_signed(a.raw) * to_signed(b.raw);
    lemma_to_signed_from_int(p);
    lemma_fundamental_div_mod(p, 16);
    assert(-0x8000 <= p / 16 < 0x8000);
    lemma_to_signed_from_int(p / 16);
}

} // verus!
