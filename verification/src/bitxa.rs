use vstd::prelude::*;

use crate::com::{
    lemma_add_of_from_int, lemma_add_rearrange, lemma_add_zero, lemma_from_int_raw,
    lemma_mul_b2a, lemma_mul_neg_one, lemma_mul_one, lemma_mul_two, lemma_mul_zero,
    lemma_neg_of_from_int, lemma_sub_of_from_int, from_int, spec_add, spec_b2a, spec_mul, spec_sub,
    spec_zero, Com,
};
use crate::tensor::{
    seq_add, seq_b2a, seq_hadamard, seq_sub, seq_xor, seq_zero, vec_add, vec_b2a, vec_hadamard,
    vec_sub, vec_xor, vec_zero,
};

verus! {

// ---------------------------------------------------------------------------
// BitXA: multiplying a bit by an arithmetic value under sharing. Given an
// additive share of x and an XOR share of y, the parties derive an additive
// share of x * y (with the bit read as zero or one). The boolean mask is
// converted to an arithmetic mask with one Hadamard multiplication, a
// second Hadamard masks the product, and a single exchange of masked
// operands finishes the computation locally.
// ---------------------------------------------------------------------------

/// The masked-operand exchange of the BitXA online phase.
#[derive(Debug)]
pub struct BitXAInteraction {
    pub capital_delta_x_share: Vec<Com>,
    pub capital_delta_y_share: Vec<bool>,
}

/// The reconstructed masked operands.
#[derive(Debug)]
pub struct CapitalDeltas {
    pub x: Vec<Com>,
    pub y: Vec<bool>,
}

impl BitXAInteraction {
    /// Local reconstruction of the masked operands from the two shares.
    pub fn reconstruct(shares: (&BitXAInteraction, &BitXAInteraction)) -> (r: CapitalDeltas)
        requires
            shares.0.capital_delta_x_share@.len() == shares.1.capital_delta_x_share@.len(),
            shares.0.capital_delta_y_share@.len() == shares.1.capital_delta_y_share@.len(),
        ensures
            r.x@ == seq_add(shares.0.capital_delta_x_share@, shares.1.capital_delta_x_share@),
            r.y@ == seq_xor(shares.0.capital_delta_y_share@, shares.1.capital_delta_y_share@),
    {
        CapitalDeltas {
            x: vec_add(&shares.0.capital_delta_x_share, &shares.1.capital_delta_x_share),
            y: vec_xor(&shares.0.capital_delta_y_share, &shares.1.capital_delta_y_share),
        }
    }
}

/// The role-dependent arrangement of the boolean-to-arithmetic conversion:
/// the dealing party contributes its arithmetic mask as the second operand,
/// the other party as the first.
pub open spec fn spec_bitxa_ef(party: bool, ma: Seq<Com>) -> (Seq<Com>, Seq<Com>) {
    if party {
        (seq_zero(ma.len()), ma)
    } else {
        (ma, seq_zero(ma.len()))
    }
}

/// Builds this party's operand pair for the first Hadamard multiplication.
pub fn bitxa_ef_shares(party: bool, ma: &Vec<Com>) -> (r: (Vec<Com>, Vec<Com>))
    ensures
        r.0@ == spec_bitxa_ef(party, ma@).0,
        r.1@ == spec_bitxa_ef(party, ma@).1,
{
    let zeros = vec_zero(ma.len());
    let copy = crate::tensor::vec_copy_com(ma);
    if party {
        (zeros, copy)
    } else {
        (copy, zeros)
    }
}

/// The arithmetic share of the XOR mask: e + f - 2 * ef.
pub fn bitxa_delta_y_share(e: &Vec<Com>, f: &Vec<Com>, ef: &Vec<Com>) -> (r: Vec<Com>)
    requires
        e@.len() == f@.len(),
        ef@.len() == e@.len(),
    ensures
        r@ == seq_sub(seq_add(e@, f@), seq_add(ef@, ef@)),
{
    vec_sub(&vec_add(e, f), &vec_add(ef, ef))
}

/// This party's masked-operand message: the arithmetic share masked
/// additively, the boolean share masked by XOR.
pub fn bitxa_mask_message(
    x_share: &Vec<Com>,
    dx_share: &Vec<Com>,
    y_share: &Vec<bool>,
    mb_share: &Vec<bool>,
) -> (r: BitXAInteraction)
    requires
        x_share@.len() == dx_share@.len(),
        y_share@.len() == mb_share@.len(),
    ensures
        r.capital_delta_x_share@ == seq_add(x_share@, dx_share@),
        r.capital_delta_y_share@ == seq_xor(y_share@, mb_share@),
{
    BitXAInteraction {
        capital_delta_x_share: vec_add(x_share, dx_share),
        capital_delta_y_share: vec_xor(y_share, mb_share),
    }
}

/// What one party outputs from BitXA once the masked operands are
/// reconstructed, from its own mask shares and the products of the two
/// Hadamard rounds.
pub open spec fn spec_bitxa_out(
    party: bool,
    dx_own: Seq<Com>,
    dy_own: Seq<Com>,
    dz_own: Seq<Com>,
    big_x: Seq<Com>,
    big_y: Seq<bool>,
) -> Seq<Com> {
    let ady = seq_b2a(big_y);
    let t = seq_hadamard(ady, big_x);
    let wbt = seq_sub(
        seq_add(
            seq_sub(seq_hadamard(dz_own, seq_add(ady, ady)), dz_own),
            seq_hadamard(dy_own, seq_sub(big_x, seq_add(t, t))),
        ),
        seq_hadamard(ady, dx_own),
    );
    if party {
        seq_add(t, wbt)
    } else {
        wbt
    }
}

/// Computes this party's BitXA output share.
pub fn bitxa_finish(
    party: bool,
    dx_own: &Vec<Com>,
    dy_own: &Vec<Com>,
    dz_own: &Vec<Com>,
    deltas: &CapitalDeltas,
) -> (r: Vec<Com>)
    requires
        dx_own@.len() == deltas.x@.len(),
        dy_own@.len() == deltas.x@.len(),
        dz_own@.len() == deltas.x@.len(),
        deltas.y@.len() == deltas.x@.len(),
    ensures
        r@ == spec_bitxa_out(party, dx_own@, dy_own@, dz_own@, deltas.x@, deltas.y@),
        r@.len() == deltas.x@.len(),
{
    let ady = vec_b2a(&deltas.y);
    let t = vec_hadamard(&ady, &deltas.x);
    let term1 = vec_sub(&vec_hadamard(dz_own, &vec_add(&ady, &ady)), dz_own);
    let term2 = vec_hadamard(dy_own, &vec_sub(&deltas.x, &vec_add(&t, &t)));
    let term3 = vec_hadamard(&ady, dx_own);
    let wbt = vec_sub(&vec_add(&term1, &term2), &term3);
    if party {
        vec_add(&t, &wbt)
    } else {
        wbt
    }
}

// ---------------------------------------------------------------------------
// Correctness, stated first for one element.
// ---------------------------------------------------------------------------

/// One element of the zero-triplet Hadamard combine (the protocol's
/// boolean-to-arithmetic and masking rounds both use it).
pub open spec fn sc_had0(party: bool, oe: Com, of_v: Com, te: Com, tf: Com) -> Com {
    let e = spec_add(oe, te);
    let f = spec_add(of_v, tf);
    let base = spec_add(
        spec_add(spec_mul(spec_zero(), f), spec_mul(e, spec_zero())),
        spec_zero(),
    );
    if party {
        spec_add(spec_mul(e, f), base)
    } else {
        base
    }
}

/// One element of the whole BitXA run as one party computes it, given both
/// parties' inputs and sampled masks. `party` also fixes the orientation:
/// the `own` arguments are this party's, the `oth` arguments the peer's.
pub open spec fn sc_bitxa_joint(
    party: bool,
    x_own: Com,
    x_oth: Com,
    y_own: bool,
    y_oth: bool,
    mb_own: bool,
    mb_oth: bool,
    dx_own: Com,
    dx_oth: Com,
) -> Com {
    let ma_own = spec_b2a(mb_own);
    let ma_oth = spec_b2a(mb_oth);
    let e_own = if party {
        spec_zero()
    } else {
        ma_own
    };
    let f_own = if party {
        ma_own
    } else {
        spec_zero()
    };
    let e_oth = if party {
        ma_oth
    } else {
        spec_zero()
    };
    let f_oth = if party {
        spec_zero()
    } else {
        ma_oth
    };
    let ef_own = sc_had0(party, e_own, f_own, e_oth, f_oth);
    let ef_oth = sc_had0(!party, e_oth, f_oth, e_own, f_own);
    let dy_own = spec_sub(spec_add(e_own, f_own), spec_add(ef_own, ef_own));
    let dy_oth = spec_sub(spec_add(e_oth, f_oth), spec_add(ef_oth, ef_oth));
    let dz_own = sc_had0(party, dx_own, dy_own, dx_oth, dy_oth);
    let big_x = spec_add(spec_add(x_own, dx_own), spec_add(x_oth, dx_oth));
    let big_y = (y_own != mb_own) != (y_oth != mb_oth);
    let ady = spec_b2a(big_y);
    let t = spec_mul(ady, big_x);
    let wbt = spec_sub(
        spec_add(
            spec_sub(spec_mul(dz_own, spec_add(ady, ady)), dz_own),
            spec_mul(dy_own, spec_sub(big_x, spec_add(t, t))),
        ),
        spec_mul(ady, dx_own),
    );
    if party {
        spec_add(t, wbt)
    } else {
        wbt
    }
}

/// One party's whole BitXA run over vectors, phrased over the primitive
/// contracts exactly as the session composes them: the mask arrangement,
/// the two zero-triplet Hadamard rounds (whose exchanged operands are the
/// locals masked by a zero triplet), the masked-operand exchange, and the
/// final combine.
pub open spec fn spec_bitxa_party(
    party: bool,
    x_own: Seq<Com>,
    x_oth: Seq<Com>,
    y_own: Seq<bool>,
    y_oth: Seq<bool>,
    mb_own: Seq<bool>,
    mb_oth: Seq<bool>,
    dx_own: Seq<Com>,
    dx_oth: Seq<Com>,
    n: nat,
) -> Seq<Com> {
    let z = seq_zero(n);
    let ma_own = seq_b2a(mb_own);
    let ma_oth = seq_b2a(mb_oth);
    let e_own = spec_bitxa_ef(party, ma_own).0;
    let f_own = spec_bitxa_ef(party, ma_own).1;
    let e_oth = spec_bitxa_ef(!party, ma_oth).0;
    let f_oth = spec_bitxa_ef(!party, ma_oth).1;
    let ef_own = crate::triplet::spec_hadamard_finish(
        party,
        z,
        z,
        z,
        seq_sub(e_own, z),
        seq_sub(f_own, z),
        seq_sub(e_oth, z),
        seq_sub(f_oth, z),
    );
    let ef_oth = crate::triplet::spec_hadamard_finish(
        !party,
        z,
        z,
        z,
        seq_sub(e_oth, z),
        seq_sub(f_oth, z),
        seq_sub(e_own, z),
        seq_sub(f_own, z),
    );
    let dy_own = seq_sub(seq_add(e_own, f_own), seq_add(ef_own, ef_own));
    let dy_oth = seq_sub(seq_add(e_oth, f_oth), seq_add(ef_oth, ef_oth));
    let dz_own = crate::triplet::spec_hadamard_finish(
        party,
        z,
        z,
        z,
        seq_sub(dx_own, z),
        seq_sub(dy_own, z),
        seq_sub(dx_oth, z),
        seq_sub(dy_oth, z),
    );
    let big_x = seq_add(seq_add(x_own, dx_own), seq_add(x_oth, dx_oth));
    let big_y = seq_xor(seq_xor(y_own, mb_own), seq_xor(y_oth, mb_oth));
    spec_bitxa_out(party, dx_own, dy_own, dz_own, big_x, big_y)
}

/// BitXA correctness for one element: whatever the sampled masks, the two
/// parties' outputs sum (wrapping) to the reconstructed arithmetic value if
/// the reconstructed bit is set, and to zero otherwise.
#[verifier::rlimit(100)]
#[verifier::spinoff_prover]
pub proof fn lemma_bitxa_scalar(
    x_t: Com,
    x_f: Com,
    y_t: bool,
    y_f: bool,
    mb_t: bool,
    mb_f: bool,
    dx_t: Com,
    dx_f: Com,
)
    ensures
        spec_add(
            sc_bitxa_joint(true, x_t, x_f, y_t, y_f, mb_t, mb_f, dx_t, dx_f),
            sc_bitxa_joint(false, x_f, x_t, y_f, y_t, mb_f, mb_t, dx_f, dx_t),
        ) == (if y_t != y_f {
            spec_add(x_t, x_f)
        } else {
            spec_zero()
        }),
{
    let a = x_t.raw as int;
    let b = dx_t.raw as int;
    let c = x_f.raw as int;
    let d = dx_f.raw as int;
    let xx = a + b + c + d;
    let zz = spec_zero();
    let one = spec_b2a(true);

    // The reconstructed masked operand, as either party computes it.
    lemma_from_int_raw(x_t);
    lemma_from_int_raw(x_f);
    lemma_from_int_raw(dx_t);
    lemma_from_int_raw(dx_f);
    lemma_add_of_from_int(a, b);
    lemma_add_of_from_int(c, d);
    lemma_add_of_from_int(a + b, c + d);
    lemma_add_of_from_int(c + d, a + b);
    let big_x = spec_add(spec_add(x_t, dx_t), spec_add(x_f, dx_f));
    assert(big_x.raw == from_int(xx));
    assert(spec_add(spec_add(x_f, dx_f), spec_add(x_t, dx_t)).raw == from_int(c + d + (a + b)));
    assert(spec_add(spec_add(x_f, dx_f), spec_add(x_t, dx_t)) == big_x);

    // The summed arithmetic mask, as either party computes it.
    lemma_add_of_from_int(b, d);
    lemma_add_of_from_int(d, b);
    let dd = spec_add(dx_t, dx_f);
    assert(dd.raw == from_int(b + d));
    assert(spec_add(dx_f, dx_t) == dd);

    let big_y = (y_t != mb_t) != (y_f != mb_f);
    let m = mb_t != mb_f;
    let ady = spec_b2a(big_y);
    let t = spec_mul(ady, big_x);
    lemma_mul_b2a(big_y, big_x);
    let tt = spec_add(t, t);
    let s = spec_sub(big_x, tt);
    let dbl_ady = spec_add(ady, ady);

    // t, 2t, s and 2*ady for both values of the reconstructed bit.
    if big_y {
        assert(t == big_x);
        lemma_add_of_from_int(xx, xx);
        lemma_sub_of_from_int(xx, xx + xx);
        assert(s.raw == from_int(xx - (xx + xx)));
        assert(dbl_ady == (Com { raw: 32 }));
    } else {
        assert(t == zz);
        assert(tt == zz);
        lemma_add_zero(big_x);
        assert(s == big_x);
        assert(dbl_ady == zz);
    }

    // The mask algebra of the boolean-to-arithmetic round, per party.
    let ma_t = spec_b2a(mb_t);
    let ma_f = spec_b2a(mb_f);
    lemma_add_zero(ma_t);
    lemma_add_zero(ma_f);
    // Party true's combine: e = ma_f, f = ma_t, plus the zero triplet terms.
    let ef_t = sc_had0(true, zz, ma_t, ma_f, zz);
    let ef_f = sc_had0(false, ma_f, zz, zz, ma_t);
    lemma_mul_zero(spec_add(zz, ma_t));
    lemma_mul_zero(spec_add(ma_f, zz));
    lemma_mul_zero(spec_add(zz, ma_f));
    lemma_mul_zero(spec_add(ma_t, zz));
    lemma_add_zero(zz);
    lemma_mul_b2a(mb_f, ma_t);
    lemma_add_zero(spec_mul(ma_f, ma_t));
    assert(ef_f == zz);
    assert(ef_t == (if mb_f {
        ma_t
    } else {
        zz
    }));
    let dy_t = spec_sub(spec_add(zz, ma_t), spec_add(ef_t, ef_t));
    let dy_f = spec_sub(spec_add(ma_f, zz), spec_add(ef_f, ef_f));
    lemma_add_zero(ma_t);
    lemma_add_zero(ma_f);
    assert(spec_add(zz, zz) == zz);
    assert(dy_f == ma_f);

    // The masked product share of the second Hadamard round: party true
    // gets the product of the summed masks, party false nothing.
    let dz_t = sc_had0(true, dx_t, dy_t, dx_f, dy_f);
    let dz_f = sc_had0(false, dx_f, dy_f, dx_t, dy_t);
    lemma_mul_zero(spec_add(dx_t, dx_f));
    lemma_mul_zero(spec_add(dx_f, dx_t));
    lemma_mul_zero(spec_add(dy_t, dy_f));
    lemma_mul_zero(spec_add(dy_f, dy_t));
    assert(dz_f == zz);

    // Case analysis over the two sampled mask bits and the secret bit.
    let out_t = sc_bitxa_joint(true, x_t, x_f, y_t, y_f, mb_t, mb_f, dx_t, dx_f);
    let out_f = sc_bitxa_joint(false, x_f, x_t, y_f, y_t, mb_f, mb_t, dx_f, dx_t);
    let term3_t = spec_mul(ady, dx_t);
    let term3_f = spec_mul(ady, dx_f);
    lemma_mul_b2a(big_y, dx_t);
    lemma_mul_b2a(big_y, dx_f);

    if mb_t {
        if mb_f {
            // dy_t is minus one, dy_f is one, the mask bits cancel.
            assert(ef_t == one);
            assert(spec_add(one, one) == (Com { raw: 32 }));
            assert(dy_t == (Com { raw: 0xfff0 }));
            assert(spec_add(dy_t, dy_f) == zz) by {
                lemma_add_of_from_int(0xfff0, 0x10);
            }
            assert(dz_t == zz) by {
                lemma_mul_zero(spec_add(dx_t, dx_f));
            }
            lemma_mul_zero(dbl_ady);
            assert(spec_mul(dz_t, dbl_ady) == zz);
            assert(spec_sub(zz, zz) == zz);
            lemma_mul_neg_one(s);
            lemma_mul_b2a(mb_f, s);
            assert(!m);
            assert(big_y == (y_t != y_f));
            if y_t != y_f {
                // out_t = 2X - b, out_f = -X - d.
                assert(s.raw == from_int(-xx));
                lemma_neg_of_from_int(-xx);
                assert(spec_mul(dy_t, s).raw == from_int(xx));
                lemma_add_zero(spec_mul(dy_t, s));
                lemma_sub_of_from_int(xx, b);
                assert(out_t.raw == from_int(xx + (xx - b))) by {
                    lemma_add_of_from_int(xx, xx - b);
                }
                lemma_add_zero(spec_mul(dy_f, s));
                assert(spec_mul(dy_f, s).raw == from_int(-xx));
                lemma_sub_of_from_int(-xx, d);
                assert(out_f.raw == from_int(-xx - d));
                lemma_add_of_from_int(xx + (xx - b), -xx - d);
                assert(spec_add(out_t, out_f).raw == from_int(a + c));
                lemma_add_of_from_int(a, c);
                assert(spec_add(x_t, x_f).raw == from_int(a + c));
            } else {
                // out_t = -X, out_f = X.
                assert(s == big_x);
                lemma_neg_of_from_int(xx);
                assert(spec_mul(dy_t, s).raw == from_int(-xx));
                lemma_add_zero(spec_mul(dy_t, s));
                lemma_add_zero(zz);
                assert(term3_t == zz);
                assert(out_t.raw == from_int(-xx)) by {
                    lemma_add_zero(spec_sub(spec_add(zz, spec_mul(dy_t, s)), zz));
                }
                assert(spec_mul(dy_f, s) == big_x);
                assert(out_f.raw == from_int(xx)) by {
                    lemma_add_zero(big_x);
                }
                lemma_add_of_from_int(-xx, xx);
                assert(spec_add(out_t, out_f).raw == from_int(0));
            }
        } else {
            // dy_t is one, dy_f is zero, the mask bit is set.
            assert(ef_t == zz);
            assert(spec_add(zz, zz) == zz);
            assert(dy_t == ma_t);
            assert(dy_t == one);
            assert(dy_f == zz);
            assert(m);
            assert(spec_add(dy_t, dy_f) == one) by {
                lemma_add_zero(one);
            }
            lemma_mul_one(dd);
            lemma_mul_b2a(true, dd);
            assert(dz_t == dd);
            lemma_mul_one(s);
            lemma_mul_zero(s);
            assert(spec_mul(dy_t, s) == s);
            assert(spec_mul(dy_f, s) == zz);
            assert(big_y == !(y_t != y_f));
            if y_t != y_f {
                // big_y is false: out_t = -(b+d) + X, out_f = 0.
                assert(dbl_ady == zz);
                lemma_mul_zero(dz_t);
                assert(spec_mul(dz_t, dbl_ady) == zz);
                lemma_from_int_raw(dd);
                lemma_sub_of_from_int(0, b + d);
                assert(spec_sub(zz, dd).raw == from_int(-(b + d))) by {
                    lemma_from_int_raw(zz);
                }
                assert(s == big_x);
                assert(term3_t == zz);
                lemma_add_of_from_int(-(b + d), xx);
                assert(spec_add(spec_sub(zz, dd), s).raw == from_int(-(b + d) + xx));
                lemma_add_zero(spec_add(spec_sub(zz, dd), s));
                assert(out_t.raw == from_int(-(b + d) + xx));
                // Party false: every term vanishes.
                lemma_mul_zero(dbl_ady);
                assert(spec_mul(dz_f, dbl_ady) == zz);
                assert(spec_sub(zz, zz) == zz);
                assert(term3_f == zz);
                lemma_add_zero(zz);
                assert(out_f == zz);
                lemma_from_int_raw(zz);
                lemma_add_of_from_int(-(b + d) + xx, 0);
                assert(spec_add(out_t, out_f).raw == from_int(a + c));
                lemma_add_of_from_int(a, c);
            } else {
                // big_y is true: out_t = d, out_f = -d.
                lemma_mul_two(dz_t);
                assert(spec_mul(dz_t, dbl_ady) == spec_add(dd, dd));
                lemma_from_int_raw(dd);
                lemma_add_of_from_int(b + d, b + d);
                lemma_sub_of_from_int((b + d) + (b + d), b + d);
                assert(spec_sub(spec_add(dd, dd), dd).raw == from_int(b + d));
                assert(s.raw == from_int(xx - (xx + xx)));
                assert(spec_mul(dy_t, s) == s);
                lemma_add_of_from_int(b + d, xx - (xx + xx));
                assert(term3_t == dx_t);
                lemma_sub_of_from_int((b + d) + (xx - (xx + xx)), b);
                assert(out_t.raw == from_int(xx + ((b + d) + (xx - (xx + xx)) - b))) by {
                    lemma_add_of_from_int(xx, (b + d) + (xx - (xx + xx)) - b);
                }
                // Party false: only the final correction survives.
                lemma_mul_zero(dbl_ady);
                lemma_mul_two(dz_f);
                assert(spec_mul(dz_f, dbl_ady) == spec_add(zz, zz));
                assert(spec_sub(zz, zz) == zz);
                assert(spec_mul(dy_f, s) == zz);
                assert(term3_f == dx_f);
                lemma_add_zero(zz);
                lemma_from_int_raw(zz);
                lemma_from_int_raw(dx_f);
                lemma_sub_of_from_int(0, d);
                assert(out_f.raw == from_int(-d));
                lemma_add_of_from_int(xx + ((b + d) + (xx - (xx + xx)) - b), -d);
                assert(spec_add(out_t, out_f).raw == from_int(0));
                lemma_from_int_raw(zz);
            }
        }
    } else {
        if mb_f {
            // dy_t is zero, dy_f is one, the mask bit is set.
            assert(ef_t == zz) by {
                lemma_mul_b2a(mb_f, ma_t);
            }
            assert(spec_add(zz, zz) == zz);
            assert(dy_t == zz) by {
                lemma_add_zero(zz);
            }
            assert(dy_f == ma_f);
            assert(dy_f == one);
            assert(m);
            assert(spec_add(dy_t, dy_f) == one) by {
                lemma_add_zero(one);
            }
            lemma_mul_one(dd);
            assert(dz_t == dd);
            lemma_mul_one(s);
            lemma_mul_zero(s);
            assert(spec_mul(dy_t, s) == zz);
            assert(spec_mul(dy_f, s) == s);
            assert(big_y == !(y_t != y_f));
            if y_t != y_f {
                // big_y false: out_t = -(b+d), out_f = X.
                assert(dbl_ady == zz);
                lemma_mul_zero(dz_t);
                assert(spec_mul(dz_t, dbl_ady) == zz);
                lemma_from_int_raw(dd);
                lemma_from_int_raw(zz);
                lemma_sub_of_from_int(0, b + d);
                assert(spec_sub(zz, dd).raw == from_int(-(b + d)));
                assert(term3_t == zz);
                lemma_add_zero(spec_add(spec_sub(zz, dd), zz));
                assert(out_t.raw == from_int(-(b + d))) by {
                    lemma_add_zero(spec_sub(zz, dd));
                }
                // Party false.
                lemma_mul_zero(dz_f);
                assert(spec_mul(dz_f, dbl_ady) == zz);
                assert(spec_sub(zz, zz) == zz);
                assert(s == big_x);
                assert(term3_f == zz);
                assert(out_f.raw == from_int(xx)) by {
                    lemma_add_zero(big_x);
                }
                lemma_add_of_from_int(-(b + d), xx);
                assert(spec_add(out_t, out_f).raw == from_int(a + c));
                lemma_add_of_from_int(a, c);
            } else {
                // big_y true: out_t = X + d, out_f = -X - d.
                lemma_mul_two(dz_t);
                assert(spec_mul(dz_t, dbl_ady) == spec_add(dd, dd));
                lemma_from_int_raw(dd);
                lemma_add_of_from_int(b + d, b + d);
                lemma_sub_of_from_int((b + d) + (b + d), b + d);
                assert(spec_sub(spec_add(dd, dd), dd).raw == from_int(b + d));
                lemma_add_zero(spec_sub(spec_add(dd, dd), dd));
                assert(term3_t == dx_t);
                lemma_from_int_raw(dx_t);
                lemma_sub_of_from_int(b + d, b);
                assert(out_t.raw == from_int(xx + (b + d - b))) by {
                    lemma_add_of_from_int(xx, b + d - b);
                }
                // Party false.
                lemma_mul_zero(dbl_ady);
                lemma_mul_two(dz_f);
                assert(spec_mul(dz_f, dbl_ady) == spec_add(zz, zz));
                assert(spec_sub(zz, zz) == zz);
                assert(s.raw == from_int(xx - (xx + xx)));
                assert(spec_mul(dy_f, s) == s);
                lemma_add_zero(s);
                assert(term3_f == dx_f);
                lemma_from_int_raw(dx_f);
                lemma_sub_of_from_int(xx - (xx + xx), d);
                assert(out_f.raw == from_int(xx - (xx + xx) - d));
                lemma_add_of_from_int(xx + (b + d - b), xx - (xx + xx) - d);
                assert(spec_add(out_t, out_f).raw == from_int(0));
                lemma_from_int_raw(zz);
            }
        } else {
            // Both masks clear: the conversion is inert.
            assert(ef_t == zz);
            assert(spec_add(zz, zz) == zz);
            assert(dy_t == zz) by {
                lemma_add_zero(zz);
            }
            assert(dy_f == zz);
            assert(!m);
            assert(spec_add(dy_t, dy_f) == zz) by {
                lemma_add_zero(zz);
            }
            lemma_mul_zero(dd);
            assert(dz_t == zz);
            lemma_mul_zero(dbl_ady);
            lemma_mul_zero(s);
            assert(spec_mul(dz_t, dbl_ady) == zz);
            assert(spec_mul(dz_f, dbl_ady) == zz);
            assert(spec_sub(zz, zz) == zz);
            assert(spec_mul(dy_t, s) == zz);
            assert(spec_mul(dy_f, s) == zz);
            lemma_add_zero(zz);
            assert(big_y == (y_t != y_f));
            if y_t != y_f {
                // out_t = X - b, out_f = -d.
                assert(term3_t == dx_t);
                assert(term3_f == dx_f);
                lemma_from_int_raw(dx_t);
                lemma_from_int_raw(dx_f);
                lemma_from_int_raw(zz);
                lemma_sub_of_from_int(0, b);
                lemma_sub_of_from_int(0, d);
                assert(spec_sub(zz, dx_t).raw == from_int(-b));
                assert(spec_sub(zz, dx_f).raw == from_int(-d));
                assert(out_t.raw == from_int(xx + (-b))) by {
                    lemma_add_of_from_int(xx, -b);
                }
                assert(out_f.raw == from_int(-d));
                lemma_add_of_from_int(xx + (-b), -d);
                assert(spec_add(out_t, out_f).raw == from_int(a + c));
                lemma_add_of_from_int(a, c);
            } else {
                assert(term3_t == zz);
                assert(term3_f == zz);
                assert(spec_sub(zz, zz) == zz);
                assert(out_t == spec_add(zz, zz));
                assert(out_t == zz);
                assert(out_f == zz);
                lemma_add_zero(zz);
                assert(spec_add(out_t, out_f) == zz);
            }
        }
    }
}

/// Indexing the zero-triplet Hadamard combine of zero-masked operands gives
/// the scalar combine of the unmasked operands.
proof fn lemma_had0_index(
    party: bool,
    oe: Seq<Com>,
    of_v: Seq<Com>,
    te: Seq<Com>,
    tf: Seq<Com>,
    n: nat,
    i: int,
)
    requires
        oe.len() == n,
        of_v.len() == n,
        te.len() == n,
        tf.len() == n,
        0 <= i < n,
    ensures
        crate::triplet::spec_hadamard_finish(
            party,
            seq_zero(n),
            seq_zero(n),
            seq_zero(n),
            seq_sub(oe, seq_zero(n)),
            seq_sub(of_v, seq_zero(n)),
            seq_sub(te, seq_zero(n)),
            seq_sub(tf, seq_zero(n)),
        )[i] == sc_had0(party, oe[i], of_v[i], te[i], tf[i]),
{
    let z = seq_zero(n);
    lemma_add_zero(oe[i]);
    lemma_add_zero(of_v[i]);
    lemma_add_zero(te[i]);
    lemma_add_zero(tf[i]);
    assert(seq_sub(oe, z)[i] == oe[i]);
    assert(seq_sub(of_v, z)[i] == of_v[i]);
    assert(seq_sub(te, z)[i] == te[i]);
    assert(seq_sub(tf, z)[i] == tf[i]);
    let e = seq_add(seq_sub(oe, z), seq_sub(te, z));
    let f = seq_add(seq_sub(of_v, z), seq_sub(tf, z));
    assert(e[i] == spec_add(oe[i], te[i]));
    assert(f[i] == spec_add(of_v[i], tf[i]));
    let base = seq_add(seq_add(seq_hadamard(z, f), seq_hadamard(e, z)), z);
    assert(seq_hadamard(z, f)[i] == spec_mul(spec_zero(), f[i]));
    assert(seq_hadamard(e, z)[i] == spec_mul(e[i], spec_zero()));
    assert(base[i] == spec_add(
        spec_add(spec_mul(spec_zero(), f[i]), spec_mul(e[i], spec_zero())),
        spec_zero(),
    ));
    if party {
        assert(seq_add(seq_hadamard(e, f), base)[i] == spec_add(spec_mul(e[i], f[i]), base[i]));
    }
}

/// Indexing one party's final combine gives the scalar formula.
proof fn lemma_bitxa_out_index(
    party: bool,
    dx_own: Seq<Com>,
    dy_own: Seq<Com>,
    dz_own: Seq<Com>,
    big_x: Seq<Com>,
    big_y: Seq<bool>,
    n: nat,
    i: int,
)
    requires
        dx_own.len() == n,
        dy_own.len() == n,
        dz_own.len() == n,
        big_x.len() == n,
        big_y.len() == n,
        0 <= i < n,
    ensures
        spec_bitxa_out(party, dx_own, dy_own, dz_own, big_x, big_y)[i] == ({
            let ady = spec_b2a(big_y[i]);
            let t = spec_mul(ady, big_x[i]);
            let wbt = spec_sub(
                spec_add(
                    spec_sub(spec_mul(dz_own[i], spec_add(ady, ady)), dz_own[i]),
                    spec_mul(dy_own[i], spec_sub(big_x[i], spec_add(t, t))),
                ),
                spec_mul(ady, dx_own[i]),
            );
            if party {
                spec_add(t, wbt)
            } else {
                wbt
            }
        }),
{
    let ady = seq_b2a(big_y);
    let t = seq_hadamard(ady, big_x);
    assert(ady[i] == spec_b2a(big_y[i]));
    assert(t[i] == spec_mul(ady[i], big_x[i]));
    let term1 = seq_sub(seq_hadamard(dz_own, seq_add(ady, ady)), dz_own);
    assert(seq_add(ady, ady)[i] == spec_add(ady[i], ady[i]));
    assert(seq_hadamard(dz_own, seq_add(ady, ady))[i] == spec_mul(
        dz_own[i],
        spec_add(ady[i], ady[i]),
    ));
    assert(term1[i] == spec_sub(spec_mul(dz_own[i], spec_add(ady[i], ady[i])), dz_own[i]));
    let inner = seq_sub(big_x, seq_add(t, t));
    assert(seq_add(t, t)[i] == spec_add(t[i], t[i]));
    assert(inner[i] == spec_sub(big_x[i], spec_add(t[i], t[i])));
    let term2 = seq_hadamard(dy_own, inner);
    assert(term2[i] == spec_mul(dy_own[i], inner[i]));
    let term3 = seq_hadamard(ady, dx_own);
    assert(term3[i] == spec_mul(ady[i], dx_own[i]));
    let wbt = seq_sub(seq_add(term1, term2), term3);
    assert(wbt[i] == spec_sub(spec_add(term1[i], term2[i]), term3[i]));
    if party {
        assert(seq_add(t, wbt)[i] == spec_add(t[i], wbt[i]));
    }
}

/// BitXA correctness over vectors: however the two parties' boolean and
/// arithmetic masks were sampled, the two output shares of a lockstep run
/// sum, componentwise and wrapping, to the reconstructed arithmetic input
/// wherever the reconstructed bit is set, and to zero elsewhere.
#[verifier::rlimit(100)]
#[verifier::spinoff_prover]
pub proof fn lemma_bitxa_joint(
    x_t: Seq<Com>,
    x_f: Seq<Com>,
    y_t: Seq<bool>,
    y_f: Seq<bool>,
    mb_t: Seq<bool>,
    mb_f: Seq<bool>,
    dx_t: Seq<Com>,
    dx_f: Seq<Com>,
    n: nat,
)
    requires
        x_t.len() == n,
        x_f.len() == n,
        y_t.len() == n,
        y_f.len() == n,
        mb_t.len() == n,
        mb_f.len() == n,
        dx_t.len() == n,
        dx_f.len() == n,
    ensures
        seq_add(
            spec_bitxa_party(true, x_t, x_f, y_t, y_f, mb_t, mb_f, dx_t, dx_f, n),
            spec_bitxa_party(false, x_f, x_t, y_f, y_t, mb_f, mb_t, dx_f, dx_t, n),
        ) == Seq::new(
            n,
            |i: int|
                if y_t[i] != y_f[i] {
                    spec_add(x_t[i], x_f[i])
                } else {
                    spec_zero()
                },
        ),
{
    let z = seq_zero(n);
    let o_t = spec_bitxa_party(true, x_t, x_f, y_t, y_f, mb_t, mb_f, dx_t, dx_f, n);
    let o_f = spec_bitxa_party(false, x_f, x_t, y_f, y_t, mb_f, mb_t, dx_f, dx_t, n);
    let ma_t = seq_b2a(mb_t);
    let ma_f = seq_b2a(mb_f);
    // The two parties' operand arrangements, from either perspective.
    let e_t = spec_bitxa_ef(true, ma_t).0;
    let f_t = spec_bitxa_ef(true, ma_t).1;
    let e_f = spec_bitxa_ef(false, ma_f).0;
    let f_f = spec_bitxa_ef(false, ma_f).1;
    let ef_t = crate::triplet::spec_hadamard_finish(
        true,
        z,
        z,
        z,
        seq_sub(e_t, z),
        seq_sub(f_t, z),
        seq_sub(e_f, z),
        seq_sub(f_f, z),
    );
    let ef_f = crate::triplet::spec_hadamard_finish(
        false,
        z,
        z,
        z,
        seq_sub(e_f, z),
        seq_sub(f_f, z),
        seq_sub(e_t, z),
        seq_sub(f_t, z),
    );
    let dy_t = seq_sub(seq_add(e_t, f_t), seq_add(ef_t, ef_t));
    let dy_f = seq_sub(seq_add(e_f, f_f), seq_add(ef_f, ef_f));
    let dz_t = crate::triplet::spec_hadamard_finish(
        true,
        z,
        z,
        z,
        seq_sub(dx_t, z),
        seq_sub(dy_t, z),
        seq_sub(dx_f, z),
        seq_sub(dy_f, z),
    );
    let dz_f = crate::triplet::spec_hadamard_finish(
        false,
        z,
        z,
        z,
        seq_sub(dx_f, z),
        seq_sub(dy_f, z),
        seq_sub(dx_t, z),
        seq_sub(dy_t, z),
    );
    let big_x_t = seq_add(seq_add(x_t, dx_t), seq_add(x_f, dx_f));
    let big_x_f = seq_add(seq_add(x_f, dx_f), seq_add(x_t, dx_t));
    let big_y_t = seq_xor(seq_xor(y_t, mb_t), seq_xor(y_f, mb_f));
    let big_y_f = seq_xor(seq_xor(y_f, mb_f), seq_xor(y_t, mb_t));
    assert(o_t == spec_bitxa_out(true, dx_t, dy_t, dz_t, big_x_t, big_y_t));
    assert(o_f == spec_bitxa_out(false, dx_f, dy_f, dz_f, big_x_f, big_y_f));
    assert forall|i: int| 0 <= i < n implies seq_add(o_t, o_f)[i] == (if y_t[i] != y_f[i] {
        spec_add(x_t[i], x_f[i])
    } else {
        spec_zero()
    }) by {
        lemma_had0_index(true, e_t, f_t, e_f, f_f, n, i);
        lemma_had0_index(false, e_f, f_f, e_t, f_t, n, i);
        assert(dy_t[i] == spec_sub(spec_add(e_t[i], f_t[i]), spec_add(ef_t[i], ef_t[i])));
        assert(dy_f[i] == spec_sub(spec_add(e_f[i], f_f[i]), spec_add(ef_f[i], ef_f[i])));
        lemma_had0_index(true, dx_t, dy_t, dx_f, dy_f, n, i);
        lemma_had0_index(false, dx_f, dy_f, dx_t, dy_t, n, i);
        assert(big_x_t[i] == spec_add(
            spec_add(x_t[i], dx_t[i]),
            spec_add(x_f[i], dx_f[i]),
        ));
        assert(big_x_f[i] == spec_add(
            spec_add(x_f[i], dx_f[i]),
            spec_add(x_t[i], dx_t[i]),
        ));
        assert(big_y_t[i] == ((y_t[i] != mb_t[i]) != (y_f[i] != mb_f[i])));
        assert(big_y_f[i] == ((y_f[i] != mb_f[i]) != (y_t[i] != mb_t[i])));
        lemma_bitxa_out_index(true, dx_t, dy_t, dz_t, big_x_t, big_y_t, n, i);
        lemma_bitxa_out_index(false, dx_f, dy_f, dz_f, big_x_f, big_y_f, n, i);
        assert(o_t[i] == sc_bitxa_joint(
            true,
            x_t[i],
            x_f[i],
            y_t[i],
            y_f[i],
            mb_t[i],
            mb_f[i],
            dx_t[i],
            dx_f[i],
        ));
        assert(o_f[i] == sc_bitxa_joint(
            false,
            x_f[i],
            x_t[i],
            y_f[i],
            y_t[i],
            mb_f[i],
            mb_t[i],
            dx_f[i],
            dx_t[i],
        ));
        lemma_bitxa_scalar(x_t[i], x_f[i], y_t[i], y_f[i], mb_t[i], mb_f[i], dx_t[i], dx_f[i]);
    }
    assert(seq_add(o_t, o_f) =~= Seq::new(
        n,
        |i: int|
            if y_t[i] != y_f[i] {
                spec_add(x_t[i], x_f[i])
            } else {
                spec_zero()
            },
    ));
}

} // verus!
