use vstd::prelude::*;

use crate::com::{lemma_add_rearrange, lemma_add_zero, spec_add, spec_msb, spec_zero, Com};
use crate::signed_comparison::{spec_comparison_eval_one, generate_signed_comparison_keys};
use crate::message::SignedComparisonKeys;
use crate::tensor::{seq_add, seq_xor, seq_zero, vec_add, vec_copy_com, vec_zero};

verus! {

// ---------------------------------------------------------------------------
// DReLU: for each element of a shared vector, the parties derive a boolean
// share of [x >= 0] (the sign bit of the reconstructed input, negated). The
// key-dealing party samples the key pair; the input masks of this
// placeholder dealer are zero, as only the output mask is live in the
// point-comparison DDCF stand-in.
// ---------------------------------------------------------------------------

/// The masked-input exchange of the DReLU online phase.
#[derive(Debug)]
pub struct DReLUInteraction {
    pub masked_x_share: Vec<Com>,
}

impl DReLUInteraction {
    /// Local reconstruction of the masked input from the two shares.
    pub fn reconstruct(shares: (&DReLUInteraction, &DReLUInteraction)) -> (r: Vec<Com>)
        requires
            shares.0.masked_x_share@.len() == shares.1.masked_x_share@.len(),
        ensures
            r@ == seq_add(shares.0.masked_x_share@, shares.1.masked_x_share@),
    {
        vec_add(&shares.0.masked_x_share, &shares.1.masked_x_share)
    }
}

/// One party's DReLU key: its share of the input mask, the public second
/// operand, its share of the output mask, and its signed-comparison key.
#[derive(Debug)]
pub struct DReLUKey {
    pub r_in_1_share: Vec<Com>,
    pub r_in_2: Vec<Com>,
    pub r_out_share: Vec<bool>,
    pub signed_comparison_key: SignedComparisonKeys,
}

impl DReLUKey {
    pub open spec fn wf(&self, n: nat) -> bool {
        &&& self.r_in_1_share@.len() == n
        &&& self.r_in_2@.len() == n
        &&& self.r_out_share@.len() == n
        &&& self.signed_comparison_key.wf(n)
    }
}

/// The joint well-formedness of a dealt key pair: the input-mask shares sum
/// to zero, the public second operand is zero on both sides, the DDCF key
/// is common to both parties, and the two output-mask splits (the
/// comparison gate's and the DReLU's own) hide one and the same mask.
pub open spec fn drelu_key_pair_ok(k0: &DReLUKey, k1: &DReLUKey, n: nat) -> bool {
    &&& k0.wf(n)
    &&& k1.wf(n)
    &&& seq_add(k0.r_in_1_share@, k1.r_in_1_share@) == seq_zero(n)
    &&& k0.r_in_2@ == seq_zero(n)
    &&& k1.r_in_2@ == seq_zero(n)
    &&& k0.signed_comparison_key.ddcf_keys.alpha@ == k1.signed_comparison_key.ddcf_keys.alpha@
    &&& k0.signed_comparison_key.ddcf_keys.invert@ == k1.signed_comparison_key.ddcf_keys.invert@
    &&& seq_xor(k0.signed_comparison_key.r_shares@, k1.signed_comparison_key.r_shares@) == seq_xor(
        k0.r_out_share@,
        k1.r_out_share@,
    )
}

/// Deals a DReLU key pair for vectors of length `n`. Fails only if the
/// CSPRNG does.
pub fn generate_drelu_keys(n: usize, rng: &ring::rand::SystemRandom) -> (r: Option<
    (DReLUKey, DReLUKey),
>)
    requires
        n <= 0x1000_0000,
    ensures
        r is Some ==> drelu_key_pair_ok(&r.unwrap().0, &r.unwrap().1, n as nat),
{
    let r_in_1 = vec_zero(n);
    let r_in_2 = vec_zero(n);
    let r_out = match crate::bit::sample(n, rng) {
        Some(b) => b,
        None => {
            return None;
        },
    };
    let r_in_1_shares = match crate::split::split_com_vec(&r_in_1, rng) {
        Some(s) => s,
        None => {
            return None;
        },
    };
    let r_out_shares = match crate::split::split_bool_vec(&r_out, rng) {
        Some(s) => s,
        None => {
            return None;
        },
    };
    let sck = match generate_signed_comparison_keys(&r_in_1, &r_in_2, &r_out, rng) {
        Some(k) => k,
        None => {
            return None;
        },
    };
    let r_in_2_copy = vec_copy_com(&r_in_2);
    let k0 = DReLUKey {
        r_in_1_share: r_in_1_shares.0,
        r_in_2,
        r_out_share: r_out_shares.0,
        signed_comparison_key: sck.0,
    };
    let k1 = DReLUKey {
        r_in_1_share: r_in_1_shares.1,
        r_in_2: r_in_2_copy,
        r_out_share: r_out_shares.1,
        signed_comparison_key: sck.1,
    };
    Some((k0, k1))
}

/// The DReLU online phase's outgoing message: the input share masked with
/// this party's input-mask share.
pub fn drelu_masked_share(x_share: &Vec<Com>, key: &DReLUKey) -> (m: DReLUInteraction)
    requires
        key.wf(x_share@.len()),
    ensures
        m.masked_x_share@ == seq_add(x_share@, key.r_in_1_share@),
{
    DReLUInteraction { masked_x_share: vec_add(x_share, &key.r_in_1_share) }
}

/// What a party outputs from DReLU once the masked input is reconstructed:
/// the signed comparison of the masked input against the key's second
/// operand, unmasked by the party's output-mask share and flipped for the
/// dealing party.
pub open spec fn spec_drelu_finish(party: bool, key: &DReLUKey, masked_x: Seq<Com>) -> Seq<bool> {
    Seq::new(
        masked_x.len(),
        |i: int|
            ((spec_comparison_eval_one(
                party,
                key.signed_comparison_key.ddcf_keys.alpha@[i],
                key.signed_comparison_key.ddcf_keys.invert@[i],
                key.signed_comparison_key.r_shares@[i],
                masked_x[i],
                key.r_in_2@[i],
            ) != key.r_out_share@[i]) != party),
    )
}

/// Computes this party's DReLU output share from the reconstructed masked
/// input.
pub fn drelu_finish(party: bool, key: &DReLUKey, masked_x: &Vec<Com>) -> (r: Vec<bool>)
    requires
        key.wf(masked_x@.len()),
    ensures
        r@ == spec_drelu_finish(party, key, masked_x@),
        r@.len() == masked_x@.len(),
{
    let comparison = key.signed_comparison_key.evaluate(party, masked_x, &key.r_in_2);
    let n = masked_x.len();
    let mut out: Vec<bool> = Vec::new();
    let mut i: usize = 0;
    while i < n
        invariant
            n == masked_x@.len(),
            key.wf(n as nat),
            comparison@.len() == n,
            comparison@ == crate::signed_comparison::spec_comparison_eval(
                party,
                key.signed_comparison_key.ddcf_keys.alpha@,
                key.signed_comparison_key.ddcf_keys.invert@,
                key.signed_comparison_key.r_shares@,
                masked_x@,
                key.r_in_2@,
            ),
            0 <= i <= n,
            out@.len() == i,
            forall|k: int| 0 <= k < i ==> out@[k] == spec_drelu_finish(party, key, masked_x@)[k],
        decreases n - i,
    {
        let bit = (comparison[i] != key.r_out_share[i]) != party;
        out.push(bit);
        i += 1;
    }
    assert(out@ =~= spec_drelu_finish(party, key, masked_x@));
    out
}

/// DReLU correctness: under a well-formed key pair, if each party masks its
/// input share and the masked input is reconstructed, the two parties'
/// outputs XOR, componentwise, to whether the reconstructed input has its
/// sign bit clear — that is, to [x >= 0].
pub proof fn lemma_drelu_xor(k0: &DReLUKey, k1: &DReLUKey, x0: Seq<Com>, x1: Seq<Com>, n: nat)
    requires
        drelu_key_pair_ok(k0, k1, n),
        x0.len() == n,
        x1.len() == n,
    ensures
        ({
            let masked = seq_add(
                seq_add(x0, k0.r_in_1_share@),
                seq_add(x1, k1.r_in_1_share@),
            );
            let o0 = spec_drelu_finish(true, k0, masked);
            let o1 = spec_drelu_finish(false, k1, masked);
            seq_xor(o0, o1) == Seq::new(n, |i: int| !spec_msb(seq_add(x0, x1)[i]))
        }),
{
    let masked = seq_add(seq_add(x0, k0.r_in_1_share@), seq_add(x1, k1.r_in_1_share@));
    let x = seq_add(x0, x1);
    let o0 = spec_drelu_finish(true, k0, masked);
    let o1 = spec_drelu_finish(false, k1, masked);
    assert forall|i: int| 0 <= i < n implies seq_xor(o0, o1)[i] == !spec_msb(x[i]) by {
        lemma_add_rearrange(x0[i], k0.r_in_1_share@[i], x1[i], k1.r_in_1_share@[i]);
        assert(seq_add(k0.r_in_1_share@, k1.r_in_1_share@)[i] == seq_zero(n)[i]);
        assert(spec_add(k0.r_in_1_share@[i], k1.r_in_1_share@[i]) == spec_zero());
        lemma_add_zero(spec_add(x0[i], x1[i]));
        assert(masked[i] == x[i]);
        lemma_add_zero(masked[i]);
        assert(crate::com::spec_sub(masked[i], spec_zero()) == masked[i]);
        assert(seq_xor(k0.signed_comparison_key.r_shares@, k1.signed_comparison_key.r_shares@)[i]
            == seq_xor(k0.r_out_share@, k1.r_out_share@)[i]);
    }
    assert(seq_xor(o0, o1) =~= Seq::new(n, |i: int| !spec_msb(seq_add(x0, x1)[i])));
}

} // verus!
