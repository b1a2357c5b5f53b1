use vstd::prelude::*;

use vstd::pervasive::arbitrary;

use crate::bitxa::spec_bitxa_party;
use crate::com::{lemma_add_rearrange, lemma_add_zero, spec_add, spec_msb, spec_zero, Com};
use crate::dense_layer::{dense_share_of, spec_dense_eval, DenseLayer, DenseLayerShare};
use crate::drelu::{drelu_key_pair_ok, spec_drelu_finish, DReLUKey};
use crate::layer::{
    layer_in_ok, layer_out_len, layer_share_of, spec_layer_eval, Layer, LayerShare,
};
use crate::model::{model_in_ok, spec_model_eval, Model, ModelShare, model_share_of};
use crate::relu::{spec_relu, spec_relu_eval};
use crate::tensor::{
    is_rect, mat_add_view, mat_view, mat_zero, seq_add, seq_b2a, seq_dot, seq_sub, seq_xor,
    seq_zero,
};
use crate::triplet::{lemma_dot_zero_triplet, spec_dot_finish};

verus! {

// ---------------------------------------------------------------------------
// The two-party evaluation in lockstep: what both parties compute, step for
// step, when every message of the linear script is delivered. The laws
// below say that the reconstruction of the two parties' outputs equals the
// plaintext evaluation — for a layer, and for a whole model.
// ---------------------------------------------------------------------------

/// Each row of a matrix masked by the zero triplet, as the dot-product
/// message carries it.
pub open spec fn mat_sub_zero(w: Seq<Seq<Com>>, cols: nat) -> Seq<Seq<Com>> {
    Seq::new(w.len(), |i: int| seq_sub(w[i], seq_zero(cols)))
}

/// The randomness both parties consume in one layer of the script: nothing
/// for a dense layer; for a rectifier layer, the dealt DReLU key pair and
/// each party's sampled BitXA masks.
pub enum StepRandomness {
    DenseStep,
    ReluStep {
        k0: DReLUKey,
        k1: DReLUKey,
        mb0: Seq<bool>,
        mb1: Seq<bool>,
        dx0: Seq<Com>,
        dx1: Seq<Com>,
    },
}

/// Whether a randomness record fits a layer at input length `n`.
pub open spec fn step_ok(l: &Layer, r: StepRandomness, n: nat) -> bool {
    match l {
        Layer::DenseLayer(_) => r is DenseStep,
        Layer::ReLULayer(_) => match r {
            StepRandomness::ReluStep { k0, k1, mb0, mb1, dx0, dx1 } => {
                &&& drelu_key_pair_ok(&k0, &k1, n)
                &&& mb0.len() == n
                &&& mb1.len() == n
                &&& dx0.len() == n
                &&& dx1.len() == n
            },
            _ => false,
        },
    }
}

/// One party's output share of a rectifier layer run in lockstep: the
/// DReLU exchange yields its boolean share of the sign, and BitXA multiplies
/// it back onto the arithmetic share.
pub open spec fn spec_relu_party(
    party: bool,
    x_own: Seq<Com>,
    x_oth: Seq<Com>,
    k_own: DReLUKey,
    k_oth: DReLUKey,
    mb_own: Seq<bool>,
    mb_oth: Seq<bool>,
    dx_own: Seq<Com>,
    dx_oth: Seq<Com>,
    n: nat,
) -> Seq<Com> {
    let masked_own = seq_add(
        seq_add(x_own, k_own.r_in_1_share@),
        seq_add(x_oth, k_oth.r_in_1_share@),
    );
    let masked_oth = seq_add(
        seq_add(x_oth, k_oth.r_in_1_share@),
        seq_add(x_own, k_own.r_in_1_share@),
    );
    let y_own = spec_drelu_finish(party, &k_own, masked_own);
    let y_oth = spec_drelu_finish(!party, &k_oth, masked_oth);
    spec_bitxa_party(party, x_own, x_oth, y_own, y_oth, mb_own, mb_oth, dx_own, dx_oth, n)
}

/// One party's output share of one layer run in lockstep.
pub open spec fn spec_layer_party(
    party: bool,
    ls_own: &LayerShare,
    ls_oth: &LayerShare,
    x_own: Seq<Com>,
    x_oth: Seq<Com>,
    rnd: StepRandomness,
) -> Seq<Com> {
    match (ls_own, ls_oth) {
        (LayerShare::DenseLayerShare(d_own), LayerShare::DenseLayerShare(d_oth)) => {
            let k = d_own.in_len();
            let m = d_own.out_len();
            seq_add(
                spec_dot_finish(
                    party,
                    seq_zero(k),
                    mat_zero(k, m),
                    seq_zero(m),
                    seq_sub(x_own, seq_zero(k)),
                    mat_sub_zero(mat_view(&d_own.weights_share), m),
                    seq_sub(x_oth, seq_zero(k)),
                    mat_sub_zero(mat_view(&d_oth.weights_share), m),
                    m,
                ),
                d_own.biases_share@,
            )
        },
        (LayerShare::ReLULayerShare(_), LayerShare::ReLULayerShare(_)) => match rnd {
            StepRandomness::ReluStep { k0, k1, mb0, mb1, dx0, dx1 } => {
                if party {
                    spec_relu_party(true, x_own, x_oth, k0, k1, mb0, mb1, dx0, dx1, x_own.len())
                } else {
                    spec_relu_party(false, x_own, x_oth, k1, k0, mb1, mb0, dx1, dx0, x_own.len())
                }
            },
            _ => Seq::empty(),
        },
        _ => Seq::empty(),
    }
}

/// Dense-layer correctness in lockstep: under the all-zeros triplet, the
/// two parties' output shares sum, componentwise and wrapping, to the
/// plaintext evaluation of the reconstructed layer on the reconstructed
/// input.
pub proof fn lemma_dense_joint(
    d: &DenseLayer,
    d0: &DenseLayerShare,
    d1: &DenseLayerShare,
    x0: Seq<Com>,
    x1: Seq<Com>,
)
    requires
        dense_share_of(d0, d1, d),
        x0.len() == d.in_len(),
        x1.len() == d.in_len(),
    ensures
        seq_add(
            spec_layer_party(
                true,
                &LayerShare::DenseLayerShare(*d0),
                &LayerShare::DenseLayerShare(*d1),
                x0,
                x1,
                StepRandomness::DenseStep,
            ),
            spec_layer_party(
                false,
                &LayerShare::DenseLayerShare(*d1),
                &LayerShare::DenseLayerShare(*d0),
                x1,
                x0,
                StepRandomness::DenseStep,
            ),
        ) == spec_layer_eval(&Layer::DenseLayer(*d), seq_add(x0, x1)),
        spec_layer_party(
            true,
            &LayerShare::DenseLayerShare(*d0),
            &LayerShare::DenseLayerShare(*d1),
            x0,
            x1,
            StepRandomness::DenseStep,
        ).len() == d.out_len(),
        spec_layer_party(
            false,
            &LayerShare::DenseLayerShare(*d1),
            &LayerShare::DenseLayerShare(*d0),
            x1,
            x0,
            StepRandomness::DenseStep,
        ).len() == d.out_len(),
{
    let k = d.in_len();
    let m = d.out_len();
    let e0 = seq_sub(x0, seq_zero(k));
    let e1 = seq_sub(x1, seq_zero(k));
    let f0 = mat_sub_zero(mat_view(&d0.weights_share), m);
    let f1 = mat_sub_zero(mat_view(&d1.weights_share), m);
    // Masking under the zero triplet leaves the operands as they are.
    assert forall|i: int| 0 <= i < k implies e0[i] == x0[i] && e1[i] == x1[i] by {
        lemma_add_zero(x0[i]);
        lemma_add_zero(x1[i]);
    }
    assert(e0 =~= x0);
    assert(e1 =~= x1);
    assert forall|i: int| 0 <= i < k implies #[trigger] f0[i] == mat_view(&d0.weights_share)[i] by {
        let r0 = mat_view(&d0.weights_share)[i];
        assert forall|j: int| 0 <= j < m implies seq_sub(r0, seq_zero(m))[j] == r0[j] by {
            lemma_add_zero(r0[j]);
        }
        assert(seq_sub(r0, seq_zero(m)) =~= r0);
    }
    assert forall|i: int| 0 <= i < k implies #[trigger] f1[i] == mat_view(&d1.weights_share)[i] by {
        let r1 = mat_view(&d1.weights_share)[i];
        assert forall|j: int| 0 <= j < m implies seq_sub(r1, seq_zero(m))[j] == r1[j] by {
            lemma_add_zero(r1[j]);
        }
        assert(seq_sub(r1, seq_zero(m)) =~= r1);
    }
    assert(f0 =~= mat_view(&d0.weights_share));
    assert(f1 =~= mat_view(&d1.weights_share));
    assert(is_rect(f0, m));
    assert(is_rect(f1, m));
    lemma_dot_zero_triplet(x0, f0, x1, f1, k, m);
    // The reconstructed masked matrix is the plaintext weight matrix.
    assert forall|i: int| 0 <= i < k implies #[trigger] mat_add_view(f0, f1)[i] == mat_view(
        &d.weights,
    )[i] by {
        assert(seq_add(mat_view(&d0.weights_share)[i], mat_view(&d1.weights_share)[i]) == mat_view(
            &d.weights,
        )[i]);
    }
    assert(mat_add_view(f0, f1) =~= mat_view(&d.weights));
    let dot0 = spec_dot_finish(true, seq_zero(k), mat_zero(k, m), seq_zero(m), e0, f0, e1, f1, m);
    let dot1 = spec_dot_finish(false, seq_zero(k), mat_zero(k, m), seq_zero(m), e1, f1, e0, f0, m);
    assert(seq_add(dot0, dot1) == seq_dot(seq_add(x0, x1), mat_view(&d.weights), m));
    // Fold in the bias shares.
    let out0 = seq_add(dot0, d0.biases_share@);
    let out1 = seq_add(dot1, d1.biases_share@);
    assert forall|j: int| 0 <= j < m implies seq_add(out0, out1)[j] == seq_add(
        seq_add(dot0, dot1),
        d.biases@,
    )[j] by {
        lemma_add_rearrange(dot0[j], d0.biases_share@[j], dot1[j], d1.biases_share@[j]);
        assert(seq_add(d0.biases_share@, d1.biases_share@)[j] == d.biases@[j]);
    }
    assert(seq_add(out0, out1) =~= seq_add(seq_add(dot0, dot1), d.biases@));
    assert(spec_layer_eval(&Layer::DenseLayer(*d), seq_add(x0, x1)) == spec_dense_eval(
        mat_view(&d.weights),
        d.biases@,
        seq_add(x0, x1),
    ));
}

/// Rectifier-layer correctness in lockstep: with a well-formed DReLU key
/// pair and whatever BitXA masks, the two parties' output shares sum to the
/// plaintext rectifier of the reconstructed input.
pub proof fn lemma_relu_joint(
    k0: DReLUKey,
    k1: DReLUKey,
    x0: Seq<Com>,
    x1: Seq<Com>,
    mb0: Seq<bool>,
    mb1: Seq<bool>,
    dx0: Seq<Com>,
    dx1: Seq<Com>,
    n: nat,
)
    requires
        drelu_key_pair_ok(&k0, &k1, n),
        x0.len() == n,
        x1.len() == n,
        mb0.len() == n,
        mb1.len() == n,
        dx0.len() == n,
        dx1.len() == n,
    ensures
        seq_add(
            spec_relu_party(true, x0, x1, k0, k1, mb0, mb1, dx0, dx1, n),
            spec_relu_party(false, x1, x0, k1, k0, mb1, mb0, dx1, dx0, n),
        ) == spec_relu_eval(seq_add(x0, x1)),
        spec_relu_party(true, x0, x1, k0, k1, mb0, mb1, dx0, dx1, n).len() == n,
        spec_relu_party(false, x1, x0, k1, k0, mb1, mb0, dx1, dx0, n).len() == n,
{
    let masked0 = seq_add(seq_add(x0, k0.r_in_1_share@), seq_add(x1, k1.r_in_1_share@));
    let masked1 = seq_add(seq_add(x1, k1.r_in_1_share@), seq_add(x0, k0.r_in_1_share@));
    assert(masked1 =~= masked0);
    let y0 = spec_drelu_finish(true, &k0, masked0);
    let y1 = spec_drelu_finish(false, &k1, masked1);
    lemma_drelu_key_finish(&k0, &k1, x0, x1, n);
    crate::drelu::lemma_drelu_xor(&k0, &k1, x0, x1, n);
    assert(seq_xor(y0, y1) == Seq::new(n, |i: int| !spec_msb(seq_add(x0, x1)[i])));
    crate::bitxa::lemma_bitxa_joint(x0, x1, y0, y1, mb0, mb1, dx0, dx1, n);
    let x = seq_add(x0, x1);
    let sum = seq_add(
        spec_relu_party(true, x0, x1, k0, k1, mb0, mb1, dx0, dx1, n),
        spec_relu_party(false, x1, x0, k1, k0, mb1, mb0, dx1, dx0, n),
    );
    assert(sum == Seq::new(
        n,
        |i: int|
            if y0[i] != y1[i] {
                spec_add(x0[i], x1[i])
            } else {
                spec_zero()
            },
    ));
    assert forall|i: int| 0 <= i < n implies sum[i] == spec_relu(x[i]) by {
        assert(seq_xor(y0, y1)[i] == (y0[i] != y1[i]));
        assert((y0[i] != y1[i]) == !spec_msb(x[i]));
    }
    assert(sum =~= spec_relu_eval(x));
}

/// The two parties' activation pairs after the whole script, layer after
/// layer, when every message is delivered.
pub open spec fn spec_lockstep_eval(
    ms0: Seq<LayerShare>,
    ms1: Seq<LayerShare>,
    a0: Seq<Com>,
    a1: Seq<Com>,
    rnds: Seq<StepRandomness>,
) -> (Seq<Com>, Seq<Com>)
    decreases ms0.len(),
{
    if ms0.len() == 0 || ms1.len() == 0 || rnds.len() == 0 {
        (a0, a1)
    } else {
        let n0 = spec_layer_party(true, &ms0[0], &ms1[0], a0, a1, rnds[0]);
        let n1 = spec_layer_party(false, &ms1[0], &ms0[0], a1, a0, rnds[0]);
        spec_lockstep_eval(ms0.drop_first(), ms1.drop_first(), n0, n1, rnds.drop_first())
    }
}

/// Whether a randomness trace fits a chain of layers fed with length `n`.
pub open spec fn randomness_ok(layers: Seq<Layer>, rnds: Seq<StepRandomness>, n: nat) -> bool
    decreases layers.len(),
{
    &&& rnds.len() == layers.len()
    &&& (layers.len() == 0 || (step_ok(&layers[0], rnds[0], n) && randomness_ok(
        layers.drop_first(),
        rnds.drop_first(),
        layer_out_len(&layers[0], n),
    )))
}

proof fn lemma_lockstep_rec(
    layers: Seq<Layer>,
    ls0: Seq<LayerShare>,
    ls1: Seq<LayerShare>,
    x0: Seq<Com>,
    x1: Seq<Com>,
    rnds: Seq<StepRandomness>,
    n: nat,
)
    requires
        ls0.len() == layers.len(),
        ls1.len() == layers.len(),
        forall|i: int|
            0 <= i < layers.len() ==> layer_share_of(#[trigger] &ls0[i], &ls1[i], &layers[i]),
        model_in_ok(layers, n),
        randomness_ok(layers, rnds, n),
        x0.len() == n,
        x1.len() == n,
    ensures
        seq_add(
            spec_lockstep_eval(ls0, ls1, x0, x1, rnds).0,
            spec_lockstep_eval(ls0, ls1, x0, x1, rnds).1,
        ) == spec_model_eval(layers, seq_add(x0, x1)),
        spec_lockstep_eval(ls0, ls1, x0, x1, rnds).0.len() == crate::model::model_out_len(
            layers,
            n,
        ),
        spec_lockstep_eval(ls0, ls1, x0, x1, rnds).1.len() == crate::model::model_out_len(
            layers,
            n,
        ),
    decreases layers.len(),
{
    if layers.len() == 0 {
    } else {
        let l = layers[0];
        let n0 = spec_layer_party(true, &ls0[0], &ls1[0], x0, x1, rnds[0]);
        let n1 = spec_layer_party(false, &ls1[0], &ls0[0], x1, x0, rnds[0]);
        let x = seq_add(x0, x1);
        match l {
            Layer::DenseLayer(d) => {
                match (ls0[0], ls1[0]) {
                    (LayerShare::DenseLayerShare(d0), LayerShare::DenseLayerShare(d1)) => {
                        lemma_dense_joint(&d, &d0, &d1, x0, x1);
                    },
                    _ => {
                        assert(false);
                    },
                }
            },
            Layer::ReLULayer(_) => {
                match rnds[0] {
                    StepRandomness::ReluStep { k0, k1, mb0, mb1, dx0, dx1 } => {
                        lemma_relu_joint(k0, k1, x0, x1, mb0, mb1, dx0, dx1, n);
                    },
                    _ => {
                        assert(false);
                    },
                }
            },
        }
        assert(seq_add(n0, n1) == spec_layer_eval(&l, x));
        assert(n0.len() == layer_out_len(&l, n));
        assert(n1.len() == layer_out_len(&l, n));
        assert forall|i: int| 0 <= i < layers.drop_first().len() implies layer_share_of(
            #[trigger] &ls0.drop_first()[i],
            &ls1.drop_first()[i],
            &layers.drop_first()[i],
        ) by {
            assert(layer_share_of(&ls0[i + 1], &ls1[i + 1], &layers[i + 1]));
        }
        lemma_lockstep_rec(
            layers.drop_first(),
            ls0.drop_first(),
            ls1.drop_first(),
            n0,
            n1,
            rnds.drop_first(),
            layer_out_len(&l, n),
        );
    }
}

/// End-to-end correctness of the two-party evaluation: for any model, any
/// sharing of it, any sharing of the input, and whatever per-layer
/// randomness the parties drew, the sum of the two parties' lockstep
/// outputs is the plaintext evaluation of the model on the reconstructed
/// input.
pub proof fn lemma_lockstep_model(
    m: &Model,
    s0: &ModelShare,
    s1: &ModelShare,
    x0: Seq<Com>,
    x1: Seq<Com>,
    rnds: Seq<StepRandomness>,
    n: nat,
)
    requires
        model_share_of(s0, s1, m),
        model_in_ok(m.layers@, n),
        randomness_ok(m.layers@, rnds, n),
        x0.len() == n,
        x1.len() == n,
    ensures
        seq_add(
            spec_lockstep_eval(s0.layer_shares@, s1.layer_shares@, x0, x1, rnds).0,
            spec_lockstep_eval(s0.layer_shares@, s1.layer_shares@, x0, x1, rnds).1,
        ) == spec_model_eval(m.layers@, seq_add(x0, x1)),
{
    lemma_lockstep_rec(m.layers@, s0.layer_shares@, s1.layer_shares@, x0, x1, rnds, n);
}

// ---------------------------------------------------------------------------
// The session machines realize the lockstep evaluation. The laws below
// take one layer of the linear script as the two `Session` machines
// execute it — each party's transitions satisfying their contracts while
// consuming the messages the other produced — and conclude that the
// activations entering the next layer reconstruct to the plaintext layer
// output.
// ---------------------------------------------------------------------------

/// A dense layer of the script: both parties enter the layer, exchange
/// their dot-product messages, and the two combines their next steps are
/// bound to compute sum to the plaintext evaluation.
#[verifier::rlimit(100)]
#[verifier::spinoff_prover]
pub proof fn lemma_session_dense_layer(
    d: &DenseLayer,
    dt: &DenseLayerShare,
    df: &DenseLayerShare,
    a_t: Seq<Com>,
    a_f: Seq<Com>,
    layers_t: Seq<LayerShare>,
    layers_f: Seq<LayerShare>,
    idx: nat,
    st: &crate::session::Session,
    out_t: Seq<crate::message::Message>,
    res_t: &Option<Vec<Com>>,
    sf: &crate::session::Session,
    out_f: Seq<crate::message::Message>,
    res_f: &Option<Vec<Com>>,
)
    requires
        dense_share_of(dt, df, d),
        a_t.len() == d.in_len(),
        a_f.len() == d.in_len(),
        idx < layers_t.len(),
        idx < layers_f.len(),
        layers_t[idx as int] == LayerShare::DenseLayerShare(*dt),
        layers_f[idx as int] == LayerShare::DenseLayerShare(*df),
        crate::session::spec_advance_rel(true, layers_t, idx, a_t, st, out_t, res_t),
        crate::session::spec_advance_rel(false, layers_f, idx, a_f, sf, out_f, res_f),
    ensures
        (st.phase matches crate::session::Phase::AwaitDot { ours: ours_t } && (sf.phase
            matches crate::session::Phase::AwaitDot { ours: ours_f } && seq_add(
            seq_add(
                spec_dot_finish(
                    true,
                    seq_zero(d.in_len()),
                    mat_zero(d.in_len(), d.out_len()),
                    seq_zero(d.out_len()),
                    ours_t.e_share@,
                    mat_view(&ours_t.f_share),
                    ours_f.e_share@,
                    mat_view(&ours_f.f_share),
                    d.out_len(),
                ),
                dt.biases_share@,
            ),
            seq_add(
                spec_dot_finish(
                    false,
                    seq_zero(d.in_len()),
                    mat_zero(d.in_len(), d.out_len()),
                    seq_zero(d.out_len()),
                    ours_f.e_share@,
                    mat_view(&ours_f.f_share),
                    ours_t.e_share@,
                    mat_view(&ours_t.f_share),
                    d.out_len(),
                ),
                df.biases_share@,
            ),
        ) == spec_layer_eval(&Layer::DenseLayer(*d), seq_add(a_t, a_f)))),
{
    let k = d.in_len();
    let m = d.out_len();
    match st.phase {
        crate::session::Phase::AwaitDot { ours: ours_t } => {
            match sf.phase {
                crate::session::Phase::AwaitDot { ours: ours_f } => {
                    lemma_dense_joint(d, dt, df, a_t, a_f);
                    assert(ours_t.e_share@ == seq_sub(a_t, seq_zero(k)));
                    assert(ours_f.e_share@ == seq_sub(a_f, seq_zero(k)));
                    assert(mat_view(&ours_t.f_share) =~= mat_sub_zero(
                        mat_view(&dt.weights_share),
                        m,
                    ));
                    assert(mat_view(&ours_f.f_share) =~= mat_sub_zero(
                        mat_view(&df.weights_share),
                        m,
                    ));
                    assert(spec_layer_party(
                        true,
                        &LayerShare::DenseLayerShare(*dt),
                        &LayerShare::DenseLayerShare(*df),
                        a_t,
                        a_f,
                        StepRandomness::DenseStep,
                    ) == seq_add(
                        spec_dot_finish(
                            true,
                            seq_zero(k),
                            mat_zero(k, m),
                            seq_zero(m),
                            ours_t.e_share@,
                            mat_view(&ours_t.f_share),
                            ours_f.e_share@,
                            mat_view(&ours_f.f_share),
                            m,
                        ),
                        dt.biases_share@,
                    ));
                    assert(spec_layer_party(
                        false,
                        &LayerShare::DenseLayerShare(*df),
                        &LayerShare::DenseLayerShare(*dt),
                        a_f,
                        a_t,
                        StepRandomness::DenseStep,
                    ) == seq_add(
                        spec_dot_finish(
                            false,
                            seq_zero(k),
                            mat_zero(k, m),
                            seq_zero(m),
                            ours_f.e_share@,
                            mat_view(&ours_f.f_share),
                            ours_t.e_share@,
                            mat_view(&ours_t.f_share),
                            m,
                        ),
                        df.biases_share@,
                    ));
                },
                _ => {
                    assert(false);
                },
            }
        },
        _ => {
            assert(false);
        },
    }
}

/// A rectifier layer of the script: both parties enter the layer (the
/// server dealing the DReLU keys), exchange the masked input, the two
/// BitXA Hadamard rounds and the masked operands, and the two combines
/// their final steps are bound to compute sum to the plaintext rectifier.
/// The eight hypotheses chain each party's transition contracts on the
/// messages the other produced.
#[verifier::rlimit(100)]
#[verifier::spinoff_prover]
pub proof fn lemma_session_relu_layer(
    a_t: Seq<Com>,
    a_f: Seq<Com>,
    n: nat,
    layers_t: Seq<LayerShare>,
    layers_f: Seq<LayerShare>,
    idx: nat,
    st1: &crate::session::Session,
    out_t1: Seq<crate::message::Message>,
    res_t1: &Option<Vec<Com>>,
    sf1: &crate::session::Session,
    out_f1: Seq<crate::message::Message>,
    res_f1: &Option<Vec<Com>>,
    sf2: &crate::session::Session,
    out_f2: Seq<crate::message::Message>,
    res_f2: &Option<Vec<Com>>,
    st2: &crate::session::Session,
    out_t2: Seq<crate::message::Message>,
    res_t2: &Option<Vec<Com>>,
    sf3: &crate::session::Session,
    out_f3: Seq<crate::message::Message>,
    res_f3: &Option<Vec<Com>>,
    st3: &crate::session::Session,
    out_t3: Seq<crate::message::Message>,
    res_t3: &Option<Vec<Com>>,
    sf4: &crate::session::Session,
    out_f4: Seq<crate::message::Message>,
    res_f4: &Option<Vec<Com>>,
    st4: &crate::session::Session,
    out_t4: Seq<crate::message::Message>,
    res_t4: &Option<Vec<Com>>,
    sf5: &crate::session::Session,
    out_f5: Seq<crate::message::Message>,
    res_f5: &Option<Vec<Com>>,
)
    requires
        a_t.len() == n,
        a_f.len() == n,
        idx < layers_t.len(),
        idx < layers_f.len(),
        layers_t[idx as int] is ReLULayerShare,
        layers_f[idx as int] is ReLULayerShare,
        crate::session::spec_advance_rel(true, layers_t, idx, a_t, st1, out_t1, res_t1),
        crate::session::spec_advance_rel(false, layers_f, idx, a_f, sf1, out_f1, res_f1),
        crate::session::spec_step_rel(sf1, &out_t1[0], sf2, out_f2, res_f2),
        crate::session::spec_step_rel(st1, &out_f2[0], st2, out_t2, res_t2),
        crate::session::spec_step_rel(sf2, &out_t1[1], sf3, out_f3, res_f3),
        crate::session::spec_step_rel(st2, &out_f3[0], st3, out_t3, res_t3),
        crate::session::spec_step_rel(sf3, &out_t2[0], sf4, out_f4, res_f4),
        crate::session::spec_step_rel(st3, &out_f4[0], st4, out_t4, res_t4),
        crate::session::spec_step_rel(sf4, &out_t3[0], sf5, out_f5, res_f5),
    ensures
        (st4.phase matches crate::session::Phase::AwaitBitXA { dx: dxt, dy: dyt, dz: dzt, ours: bt }
            && (sf5.phase matches crate::session::Phase::AwaitBitXA {
            dx: dxf,
            dy: dyf,
            dz: dzf,
            ours: bf,
        } && seq_add(
            crate::bitxa::spec_bitxa_out(
                true,
                dxt@,
                dyt@,
                dzt@,
                seq_add(bt.capital_delta_x_share@, bf.capital_delta_x_share@),
                seq_xor(bt.capital_delta_y_share@, bf.capital_delta_y_share@),
            ),
            crate::bitxa::spec_bitxa_out(
                false,
                dxf@,
                dyf@,
                dzf@,
                seq_add(bf.capital_delta_x_share@, bt.capital_delta_x_share@),
                seq_xor(bf.capital_delta_y_share@, bt.capital_delta_y_share@),
            ),
        ) == spec_relu_eval(seq_add(a_t, a_f)))),
{
    let z = seq_zero(n);
    // The server's entry state: the dealt key pair and the masked input.
    let (k0, mt) = match st1.phase {
        crate::session::Phase::AwaitDReLUMask { x, key, ours } => (key, ours),
        _ => arbitrary(),
    };
    let k1 = match out_t1[0] {
        crate::message::Message::DReLUKey(k) => k,
        _ => arbitrary(),
    };
    assert(drelu_key_pair_ok(&k0, &k1, n));
    assert(mt.masked_x_share@ == seq_add(a_t, k0.r_in_1_share@));
    // The client receives the key and masks its input share.
    let mf = match sf2.phase {
        crate::session::Phase::AwaitDReLUMask { x, key, ours } => ours,
        _ => arbitrary(),
    };
    assert(mf.masked_x_share@ == seq_add(a_f, k1.r_in_1_share@));
    let masked_t = seq_add(mt.masked_x_share@, mf.masked_x_share@);
    let masked_f = seq_add(mf.masked_x_share@, mt.masked_x_share@);
    // Both parties finish DReLU and open the first Hadamard round.
    let (yt, mbt, et, ft, h1t) = match st2.phase {
        crate::session::Phase::AwaitHad1 { x, y, mb, e, f, ours } => (y, mb, e, f, ours),
        _ => arbitrary(),
    };
    assert(yt@ == spec_drelu_finish(true, &k0, masked_t));
    assert(et@ == crate::bitxa::spec_bitxa_ef(true, seq_b2a(mbt@)).0);
    assert(ft@ == crate::bitxa::spec_bitxa_ef(true, seq_b2a(mbt@)).1);
    assert(h1t.e_share@ == seq_sub(et@, z) && h1t.f_share@ == seq_sub(ft@, z));
    let (yf, mbf, ef_v, ff, h1f) = match sf3.phase {
        crate::session::Phase::AwaitHad1 { x, y, mb, e, f, ours } => (y, mb, e, f, ours),
        _ => arbitrary(),
    };
    assert(yf@ == spec_drelu_finish(false, &k1, masked_f));
    assert(ef_v@ == crate::bitxa::spec_bitxa_ef(false, seq_b2a(mbf@)).0);
    assert(ff@ == crate::bitxa::spec_bitxa_ef(false, seq_b2a(mbf@)).1);
    assert(h1f.e_share@ == seq_sub(ef_v@, z) && h1f.f_share@ == seq_sub(ff@, z));
    // The second Hadamard round.
    let (dxt3, dyt3, h2t) = match st3.phase {
        crate::session::Phase::AwaitHad2 { x, y, mb, dx, dy, ours } => (dx, dy, ours),
        _ => arbitrary(),
    };
    let eft = crate::triplet::spec_hadamard_finish(
        true,
        z,
        z,
        z,
        h1t.e_share@,
        h1t.f_share@,
        h1f.e_share@,
        h1f.f_share@,
    );
    assert(dyt3@ == seq_sub(seq_add(et@, ft@), seq_add(eft, eft)));
    assert(h2t.e_share@ == seq_sub(dxt3@, z) && h2t.f_share@ == seq_sub(dyt3@, z));
    let (dxf4, dyf4, h2f) = match sf4.phase {
        crate::session::Phase::AwaitHad2 { x, y, mb, dx, dy, ours } => (dx, dy, ours),
        _ => arbitrary(),
    };
    let eff = crate::triplet::spec_hadamard_finish(
        false,
        z,
        z,
        z,
        h1f.e_share@,
        h1f.f_share@,
        h1t.e_share@,
        h1t.f_share@,
    );
    assert(dyf4@ == seq_sub(seq_add(ef_v@, ff@), seq_add(eff, eff)));
    assert(h2f.e_share@ == seq_sub(dxf4@, z) && h2f.f_share@ == seq_sub(dyf4@, z));
    // The masked-operand exchange.
    let (dxt4, dyt4, dzt4, bt) = match st4.phase {
        crate::session::Phase::AwaitBitXA { dx, dy, dz, ours } => (dx, dy, dz, ours),
        _ => arbitrary(),
    };
    assert(dxt4@ == dxt3@ && dyt4@ == dyt3@);
    assert(dzt4@ == crate::triplet::spec_hadamard_finish(
        true,
        z,
        z,
        z,
        h2t.e_share@,
        h2t.f_share@,
        h2f.e_share@,
        h2f.f_share@,
    ));
    assert(bt.capital_delta_x_share@ == seq_add(a_t, dxt3@));
    assert(bt.capital_delta_y_share@ == seq_xor(yt@, mbt@));
    let (dxf5, dyf5, dzf5, bf) = match sf5.phase {
        crate::session::Phase::AwaitBitXA { dx, dy, dz, ours } => (dx, dy, dz, ours),
        _ => arbitrary(),
    };
    assert(dxf5@ == dxf4@ && dyf5@ == dyf4@);
    assert(dzf5@ == crate::triplet::spec_hadamard_finish(
        false,
        z,
        z,
        z,
        h2f.e_share@,
        h2f.f_share@,
        h2t.e_share@,
        h2t.f_share@,
    ));
    assert(bf.capital_delta_x_share@ == seq_add(a_f, dxf4@));
    assert(bf.capital_delta_y_share@ == seq_xor(yf@, mbf@));
    // The two final combines are exactly the parties' lockstep outputs.
    assert(yt@ == spec_drelu_finish(
        true,
        &k0,
        seq_add(seq_add(a_t, k0.r_in_1_share@), seq_add(a_f, k1.r_in_1_share@)),
    ));
    assert(yf@ == spec_drelu_finish(
        false,
        &k1,
        seq_add(seq_add(a_f, k1.r_in_1_share@), seq_add(a_t, k0.r_in_1_share@)),
    ));
    let act_t = crate::bitxa::spec_bitxa_out(
        true,
        dxt4@,
        dyt4@,
        dzt4@,
        seq_add(bt.capital_delta_x_share@, bf.capital_delta_x_share@),
        seq_xor(bt.capital_delta_y_share@, bf.capital_delta_y_share@),
    );
    let act_f = crate::bitxa::spec_bitxa_out(
        false,
        dxf5@,
        dyf5@,
        dzf5@,
        seq_add(bf.capital_delta_x_share@, bt.capital_delta_x_share@),
        seq_xor(bf.capital_delta_y_share@, bt.capital_delta_y_share@),
    );
    assert(act_t == crate::bitxa::spec_bitxa_party(
        true,
        a_t,
        a_f,
        yt@,
        yf@,
        mbt@,
        mbf@,
        dxt3@,
        dxf4@,
        n,
    ));
    assert(act_f == crate::bitxa::spec_bitxa_party(
        false,
        a_f,
        a_t,
        yf@,
        yt@,
        mbf@,
        mbt@,
        dxf4@,
        dxt3@,
        n,
    ));
    assert(act_t == spec_relu_party(true, a_t, a_f, k0, k1, mbt@, mbf@, dxt3@, dxf4@, n));
    assert(act_f == spec_relu_party(false, a_f, a_t, k1, k0, mbf@, mbt@, dxf4@, dxt3@, n));
    lemma_relu_joint(k0, k1, a_t, a_f, mbt@, mbf@, dxt3@, dxf4@, n);
}

/// The close of the script: past the last layer the server sends its
/// output share, and the output the client's final step reconstructs is
/// the sum of the two parties' last activations — by the model law, the
/// plaintext evaluation.
pub proof fn lemma_session_output_exchange(
    a_t: Seq<Com>,
    a_f: Seq<Com>,
    layers_t: Seq<LayerShare>,
    layers_f: Seq<LayerShare>,
    st: &crate::session::Session,
    out_t: Seq<crate::message::Message>,
    res_t: &Option<Vec<Com>>,
    sf: &crate::session::Session,
    out_f: Seq<crate::message::Message>,
    res_f: &Option<Vec<Com>>,
    sf2: &crate::session::Session,
    out_f2: Seq<crate::message::Message>,
    res_f2: &Option<Vec<Com>>,
)
    requires
        a_t.len() == a_f.len(),
        crate::session::spec_advance_rel(true, layers_t, layers_t.len(), a_t, st, out_t, res_t),
        crate::session::spec_advance_rel(false, layers_f, layers_f.len(), a_f, sf, out_f, res_f),
        crate::session::spec_step_rel(sf, &out_t[0], sf2, out_f2, res_f2),
    ensures
        (res_f2 matches Some(o) && o@ == seq_add(a_t, a_f)),
{
    let v = match out_t[0] {
        crate::message::Message::OutputShare(v) => v,
        _ => arbitrary(),
    };
    assert(v@ == a_t);
    let ours = match sf.phase {
        crate::session::Phase::AwaitOutput { ours } => ours,
        _ => arbitrary(),
    };
    assert(ours@ == a_f);
    let o = match res_f2 {
        Some(o) => o,
        None => arbitrary(),
    };
    assert(o@ == seq_add(a_f, a_t));
    assert(seq_add(a_f, a_t) =~= seq_add(a_t, a_f));
}

/// Helper: the drelu outputs used by the rectifier law have length n.
proof fn lemma_drelu_key_finish(k0: &DReLUKey, k1: &DReLUKey, x0: Seq<Com>, x1: Seq<Com>, n: nat)
    requires
        drelu_key_pair_ok(k0, k1, n),
        x0.len() == n,
        x1.len() == n,
    ensures
        spec_drelu_finish(
            true,
            k0,
            seq_add(seq_add(x0, k0.r_in_1_share@), seq_add(x1, k1.r_in_1_share@)),
        ).len() == n,
        spec_drelu_finish(
            false,
            k1,
            seq_add(seq_add(x1, k1.r_in_1_share@), seq_add(x0, k0.r_in_1_share@)),
        ).len() == n,
{
}

} // verus!
