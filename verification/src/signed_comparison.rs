use vstd::prelude::*;

use crate::com::{
    spec_and, spec_msb, spec_not, spec_sub, Com, SIGN_CLEAR_MASK,
};
use crate::message::{DDCFKey, SignedComparisonKeys};
use crate::tensor::{seq_sub, seq_xor, vec_copy_bool, vec_copy_com, vec_sub};

verus! {

// ---------------------------------------------------------------------------
// The signed-comparison gate, built on a dual distributed comparison
// function (DDCF). Both parties hold the same (alpha, invert) key, so the
// keyed point comparison below yields the same bit on both sides and
// cancels under XOR. A full function-secret-sharing construction would
// split the key between the parties; the observable contract is the same:
// the two parties' outputs XOR to the comparison bit, masked by r_out.
// ---------------------------------------------------------------------------

/// One element of a party's signed-comparison evaluation on the masked
/// operands: compare the sign-cleared bitwise complement of z = mx - my
/// against alpha, flip by the key's invert bit, mask with the party's
/// output-mask share, and fold in the sign bit of z for the designated
/// party.
pub open spec fn spec_comparison_eval_one(
    party: bool,
    alpha: Com,
    invert: bool,
    r_share: bool,
    mx: Com,
    my: Com,
) -> bool {
    let z = spec_sub(mx, my);
    let point = spec_and(spec_not(z), SIGN_CLEAR_MASK);
    let m = (point.raw < alpha.raw) != invert;
    let v = m != r_share;
    if party {
        v != spec_msb(z)
    } else {
        v
    }
}

/// A party's whole evaluation, componentwise.
pub open spec fn spec_comparison_eval(
    party: bool,
    alpha: Seq<Com>,
    invert: Seq<bool>,
    r_shares: Seq<bool>,
    mx: Seq<Com>,
    my: Seq<Com>,
) -> Seq<bool> {
    Seq::new(
        mx.len(),
        |i: int| spec_comparison_eval_one(party, alpha[i], invert[i], r_shares[i], mx[i], my[i]),
    )
}

impl SignedComparisonKeys {
    pub open spec fn wf(&self, n: nat) -> bool {
        &&& self.ddcf_keys.alpha@.len() == n
        &&& self.ddcf_keys.invert@.len() == n
        &&& self.r_shares@.len() == n
    }

    /// Evaluates the signed comparison on the two masked operand vectors.
    pub fn evaluate(&self, party: bool, masked_x: &Vec<Com>, masked_y: &Vec<Com>) -> (r: Vec<bool>)
        requires
            self.wf(masked_x@.len()),
            masked_y@.len() == masked_x@.len(),
        ensures
            r@ == spec_comparison_eval(
                party,
                self.ddcf_keys.alpha@,
                self.ddcf_keys.invert@,
                self.r_shares@,
                masked_x@,
                masked_y@,
            ),
            r@.len() == masked_x@.len(),
    {
        let n = masked_x.len();
        let mut out: Vec<bool> = Vec::new();
        let mut i: usize = 0;
        while i < n
            invariant
                n == masked_x@.len() == masked_y@.len(),
                self.wf(n as nat),
                0 <= i <= n,
                out@.len() == i,
                forall|k: int|
                    0 <= k < i ==> out@[k] == spec_comparison_eval_one(
                        party,
                        self.ddcf_keys.alpha@[k],
                        self.ddcf_keys.invert@[k],
                        self.r_shares@[k],
                        masked_x@[k],
                        masked_y@[k],
                    ),
            decreases n - i,
        {
            let z = crate::com::com_sub(masked_x[i], masked_y[i]);
            let point = crate::com::com_and(crate::com::com_not(z), SIGN_CLEAR_MASK);
            let m = (point.raw < self.ddcf_keys.alpha[i].raw) != self.ddcf_keys.invert[i];
            let v = m != self.r_shares[i];
            let bit = if party {
                v != crate::com::get_msb(z)
            } else {
                v
            };
            out.push(bit);
            i += 1;
        }
        assert(out@ =~= spec_comparison_eval(
            party,
            self.ddcf_keys.alpha@,
            self.ddcf_keys.invert@,
            self.r_shares@,
            masked_x@,
            masked_y@,
        ));
        out
    }
}

/// Generates the key pair of the signed-comparison gate from the two input
/// masks and the output mask. Both parties receive the same DDCF key,
/// derived from r = r2 - r1: alpha is r with the sign bit cleared, invert is
/// the sign bit of r. The output mask is XOR-split between the parties.
/// Fails only if the CSPRNG does.
pub fn generate_signed_comparison_keys(
    r1_ins: &Vec<Com>,
    r2_ins: &Vec<Com>,
    r_out: &Vec<bool>,
    rng: &ring::rand::SystemRandom,
) -> (r: Option<(SignedComparisonKeys, SignedComparisonKeys)>)
    requires
        r1_ins@.len() == r2_ins@.len(),
        r_out@.len() == r1_ins@.len(),
        r1_ins@.len() <= 0x1000_0000,
    ensures
        r is Some ==> {
            let k0 = r.unwrap().0;
            let k1 = r.unwrap().1;
            let diff = seq_sub(r2_ins@, r1_ins@);
            &&& k0.wf(r1_ins@.len())
            &&& k1.wf(r1_ins@.len())
            &&& k0.ddcf_keys.alpha@ == Seq::new(
                r1_ins@.len(),
                |i: int| spec_and(diff[i], SIGN_CLEAR_MASK),
            )
            &&& k1.ddcf_keys.alpha@ == k0.ddcf_keys.alpha@
            &&& k0.ddcf_keys.invert@ == Seq::new(r1_ins@.len(), |i: int| spec_msb(diff[i]))
            &&& k1.ddcf_keys.invert@ == k0.ddcf_keys.invert@
            &&& seq_xor(k0.r_shares@, k1.r_shares@) == r_out@
        },
{
    let n = r1_ins.len();
    let diff = vec_sub(r2_ins, r1_ins);
    let mut alpha: Vec<Com> = Vec::new();
    let mut invert: Vec<bool> = Vec::new();
    let mut i: usize = 0;
    while i < n
        invariant
            n == r1_ins@.len(),
            diff@.len() == n,
            0 <= i <= n,
            alpha@.len() == i,
            invert@.len() == i,
            forall|k: int| 0 <= k < i ==> alpha@[k] == spec_and(diff@[k], SIGN_CLEAR_MASK),
            forall|k: int| 0 <= k < i ==> invert@[k] == spec_msb(diff@[k]),
        decreases n - i,
    {
        alpha.push(crate::com::com_and(diff[i], SIGN_CLEAR_MASK));
        invert.push(crate::com::get_msb(diff[i]));
        i += 1;
    }
    let r_shares = match crate::split::split_bool_vec(r_out, rng) {
        Some(s) => s,
        None => {
            return None;
        },
    };
    let alpha2 = vec_copy_com(&alpha);
    let invert2 = vec_copy_bool(&invert);
    let k0 = SignedComparisonKeys {
        ddcf_keys: DDCFKey { alpha, invert },
        r_shares: r_shares.0,
    };
    let k1 = SignedComparisonKeys {
        ddcf_keys: DDCFKey { alpha: alpha2, invert: invert2 },
        r_shares: r_shares.1,
    };
    proof {
        assert(k0.ddcf_keys.alpha@ =~= Seq::new(
            r1_ins@.len(),
            |i: int| spec_and(seq_sub(r2_ins@, r1_ins@)[i], SIGN_CLEAR_MASK),
        ));
        assert(k0.ddcf_keys.invert@ =~= Seq::new(
            r1_ins@.len(),
            |i: int| spec_msb(seq_sub(r2_ins@, r1_ins@)[i]),
        ));
    }
    Some((k0, k1))
}

} // verus!
