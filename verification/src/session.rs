use vstd::prelude::*;

use crate::bitxa::{spec_bitxa_ef, spec_bitxa_out, BitXAInteraction};
use crate::com::Com;
use crate::drelu::{drelu_key_pair_ok, spec_drelu_finish, DReLUInteraction, DReLUKey};
use crate::error::{ErrorKind, ProtocolStep, SessionError};
use crate::layer::LayerShare;
use crate::message::{DotProductInteraction, HadamardProductInteraction, Message};
use crate::model::ModelShare;
use crate::tensor::{
    is_rect, mat_view, seq_add, seq_b2a, seq_sub, seq_xor, seq_zero, Matrix,
};
use crate::triplet::{spec_dot_finish, spec_hadamard_finish, MultiplicationTripletShare};

verus! {

// ---------------------------------------------------------------------------
// The session state machine. The protocol is a linear script: each party
// alternates between computing, sending, and awaiting exactly one tagged
// message. The machine holds everything the next combine step needs; the
// surrounding program performs the sends and feeds each received message to
// `step`, until the machine is done.
// ---------------------------------------------------------------------------

/// Where the session stands: which message it awaits, and what it has to
/// remember to process it.
#[derive(Debug)]
pub enum Phase {
    /// Client only: the input share to keep, while the model share is on
    /// its way.
    AwaitModel { input_keep: Vec<Com> },
    /// Server only: the model share went out, the input share is awaited.
    AwaitInput,
    /// A dense layer's dot-product exchange is in flight.
    AwaitDot { ours: DotProductInteraction },
    /// Client only: the DReLU key is on its way.
    AwaitDReLUKey { x: Vec<Com> },
    /// The DReLU masked-input exchange is in flight.
    AwaitDReLUMask { x: Vec<Com>, key: DReLUKey, ours: DReLUInteraction },
    /// The first BitXA Hadamard exchange (boolean-to-arithmetic) is in
    /// flight.
    AwaitHad1 {
        x: Vec<Com>,
        y: Vec<bool>,
        mb: Vec<bool>,
        e: Vec<Com>,
        f: Vec<Com>,
        ours: HadamardProductInteraction,
    },
    /// The second BitXA Hadamard exchange (product masking) is in flight.
    AwaitHad2 {
        x: Vec<Com>,
        y: Vec<bool>,
        mb: Vec<bool>,
        dx: Vec<Com>,
        dy: Vec<Com>,
        ours: HadamardProductInteraction,
    },
    /// The BitXA masked-operand exchange is in flight.
    AwaitBitXA { dx: Vec<Com>, dy: Vec<Com>, dz: Vec<Com>, ours: BitXAInteraction },
    /// Client only: all layers are done; the server's output share is
    /// awaited.
    AwaitOutput { ours: Vec<Com> },
    /// The session has ended.
    Done,
}

/// One party's running session.
#[derive(Debug)]
pub struct Session {
    pub party: bool,
    pub layers: Vec<LayerShare>,
    pub idx: usize,
    pub phase: Phase,
}

/// Whether a chain of layer shares is well shaped when fed a vector of
/// length `n`: every dense share rectangular and matching, every
/// intermediate length small enough to deal masks for.
pub open spec fn share_chain_ok(ls: Seq<LayerShare>, n: nat) -> bool
    decreases ls.len(),
{
    &&& n <= 0x1000_0000
    &&& (ls.len() == 0 || (match ls[0] {
        LayerShare::DenseLayerShare(d) => d.wf() && d.in_len() == n && share_chain_ok(
            ls.drop_first(),
            d.out_len(),
        ),
        LayerShare::ReLULayerShare(_) => share_chain_ok(ls.drop_first(), n),
    }))
}

/// Checks `share_chain_ok` at runtime, for shares that arrived over the
/// wire.
pub fn check_share_chain(ls: &Vec<LayerShare>, n: usize) -> (r: bool)
    ensures
        r == share_chain_ok(ls@, n as nat),
{
    let total = ls.len();
    let mut dim: usize = n;
    proof {
        assert(ls@.skip(0) =~= ls@);
    }
    let mut i: usize = 0;
    while i < total
        invariant
            total == ls@.len(),
            0 <= i <= total,
            share_chain_ok(ls@, n as nat) == share_chain_ok(ls@.skip(i as int), dim as nat),
        decreases total - i,
    {
        let ghost pre = ls@.skip(i as int);
        assert(pre[0] == ls@[i as int]);
        assert(pre.drop_first() =~= ls@.skip(i as int + 1));
        if dim > 0x1000_0000 {
            return false;
        }
        match &ls[i] {
            LayerShare::DenseLayerShare(d) => {
                let cols = d.biases_share.len();
                if !d.weights_share.is_rectangular(cols) {
                    return false;
                }
                if d.weights_share.nrows() != dim {
                    return false;
                }
                dim = cols;
            },
            LayerShare::ReLULayerShare(_) => {},
        }
        i += 1;
    }
    assert(ls@.skip(total as int) =~= Seq::<LayerShare>::empty());
    if dim > 0x1000_0000 {
        return false;
    }
    true
}

/// The session invariant: the phase's stored tensors agree in length, the
/// current layer matches the phase's kind, and the remaining chain is well
/// shaped.
pub open spec fn session_wf(s: &Session) -> bool {
    &&& s.idx <= s.layers@.len()
    &&& match s.phase {
        Phase::AwaitModel { input_keep } => {
            &&& !s.party
            &&& s.layers@.len() == 0
            &&& s.idx == 0
            &&& input_keep@.len() <= 0x1000_0000
        },
        Phase::AwaitInput => s.party,
        Phase::AwaitDot { ours } => {
            &&& s.idx < s.layers@.len()
            &&& (s.layers@[s.idx as int] matches LayerShare::DenseLayerShare(d) && {
                &&& d.wf()
                &&& ours.e_share@.len() == d.in_len()
                &&& mat_view(&ours.f_share).len() == d.in_len()
                &&& is_rect(mat_view(&ours.f_share), d.out_len())
                &&& share_chain_ok(s.layers@.skip(s.idx as int), d.in_len())
            })
        },
        Phase::AwaitDReLUKey { x } => {
            &&& !s.party
            &&& s.idx < s.layers@.len()
            &&& s.layers@[s.idx as int] is ReLULayerShare
            &&& share_chain_ok(s.layers@.skip(s.idx as int), x@.len())
        },
        Phase::AwaitDReLUMask { x, key, ours } => {
            &&& s.idx < s.layers@.len()
            &&& s.layers@[s.idx as int] is ReLULayerShare
            &&& key.wf(x@.len())
            &&& ours.masked_x_share@.len() == x@.len()
            &&& share_chain_ok(s.layers@.skip(s.idx as int), x@.len())
        },
        Phase::AwaitHad1 { x, y, mb, e, f, ours } => {
            &&& s.idx < s.layers@.len()
            &&& s.layers@[s.idx as int] is ReLULayerShare
            &&& y@.len() == x@.len()
            &&& mb@.len() == x@.len()
            &&& e@.len() == x@.len()
            &&& f@.len() == x@.len()
            &&& ours.e_share@.len() == x@.len()
            &&& ours.f_share@.len() == x@.len()
            &&& share_chain_ok(s.layers@.skip(s.idx as int), x@.len())
        },
        Phase::AwaitHad2 { x, y, mb, dx, dy, ours } => {
            &&& s.idx < s.layers@.len()
            &&& s.layers@[s.idx as int] is ReLULayerShare
            &&& y@.len() == x@.len()
            &&& mb@.len() == x@.len()
            &&& dx@.len() == x@.len()
            &&& dy@.len() == x@.len()
            &&& ours.e_share@.len() == x@.len()
            &&& ours.f_share@.len() == x@.len()
            &&& share_chain_ok(s.layers@.skip(s.idx as int), x@.len())
        },
        Phase::AwaitBitXA { dx, dy, dz, ours } => {
            &&& s.idx < s.layers@.len()
            &&& s.layers@[s.idx as int] is ReLULayerShare
            &&& dy@.len() == dx@.len()
            &&& dz@.len() == dx@.len()
            &&& ours.capital_delta_x_share@.len() == dx@.len()
            &&& ours.capital_delta_y_share@.len() == dx@.len()
            &&& share_chain_ok(s.layers@.skip(s.idx as int), dx@.len())
        },
        Phase::AwaitOutput { ours } => !s.party,
        Phase::Done => true,
    }
}

/// Whether a message carries the tag a phase awaits.
pub open spec fn tag_matches(phase: &Phase, msg: &Message) -> bool {
    match phase {
        Phase::AwaitModel { .. } => msg is ModelShare,
        Phase::AwaitInput => msg is InputShare,
        Phase::AwaitDot { .. } => msg is DotProductInteraction,
        Phase::AwaitDReLUKey { .. } => msg is DReLUKey,
        Phase::AwaitDReLUMask { .. } => msg is DReLUInteraction,
        Phase::AwaitHad1 { .. } => msg is HadamardProductInteraction,
        Phase::AwaitHad2 { .. } => msg is HadamardProductInteraction,
        Phase::AwaitBitXA { .. } => msg is BitXAInteraction,
        Phase::AwaitOutput { .. } => msg is OutputShare,
        Phase::Done => false,
    }
}

/// Whether a message of the right tag also fits the awaited shapes: the
/// condition under which a step is owed success (up to a failing CSPRNG).
pub open spec fn msg_fits(s: &Session, msg: &Message) -> bool {
    match s.phase {
        Phase::AwaitModel { input_keep } => {
            msg matches Message::ModelShare(ms) && share_chain_ok(
                ms.layer_shares@,
                input_keep@.len(),
            )
        },
        Phase::AwaitInput => {
            msg matches Message::InputShare(inp) && share_chain_ok(s.layers@, inp@.len())
        },
        Phase::AwaitDot { ours } => {
            msg matches Message::DotProductInteraction(theirs)
                && (s.layers@[s.idx as int] matches LayerShare::DenseLayerShare(d) && {
                &&& theirs.e_share@.len() == ours.e_share@.len()
                &&& mat_view(&theirs.f_share).len() == ours.e_share@.len()
                &&& is_rect(mat_view(&theirs.f_share), d.out_len())
            })
        },
        Phase::AwaitDReLUKey { x } => {
            msg matches Message::DReLUKey(key) && key.wf(x@.len())
        },
        Phase::AwaitDReLUMask { x, .. } => {
            msg matches Message::DReLUInteraction(theirs) && theirs.masked_x_share@.len()
                == x@.len()
        },
        Phase::AwaitHad1 { x, .. } => {
            msg matches Message::HadamardProductInteraction(theirs) && theirs.e_share@.len()
                == x@.len() && theirs.f_share@.len() == x@.len()
        },
        Phase::AwaitHad2 { x, .. } => {
            msg matches Message::HadamardProductInteraction(theirs) && theirs.e_share@.len()
                == x@.len() && theirs.f_share@.len() == x@.len()
        },
        Phase::AwaitBitXA { dx, .. } => {
            msg matches Message::BitXAInteraction(theirs) && theirs.capital_delta_x_share@.len()
                == dx@.len() && theirs.capital_delta_y_share@.len() == dx@.len()
        },
        Phase::AwaitOutput { ours } => {
            msg matches Message::OutputShare(theirs) && theirs@.len() == ours@.len()
        },
        Phase::Done => false,
    }
}

/// The sub-protocol a phase belongs to, for error reporting.
pub open spec fn phase_step(phase: &Phase) -> ProtocolStep {
    match phase {
        Phase::AwaitModel { .. } => ProtocolStep::ModelExchange,
        Phase::AwaitInput => ProtocolStep::InputExchange,
        Phase::AwaitDot { .. } => ProtocolStep::DotProduct,
        Phase::AwaitDReLUKey { .. } => ProtocolStep::DReLUKeyExchange,
        Phase::AwaitDReLUMask { .. } => ProtocolStep::DReLUMaskExchange,
        Phase::AwaitHad1 { .. } => ProtocolStep::BitXAHadamard,
        Phase::AwaitHad2 { .. } => ProtocolStep::BitXAHadamard,
        Phase::AwaitBitXA { .. } => ProtocolStep::BitXAMaskExchange,
        Phase::AwaitOutput { .. } => ProtocolStep::OutputExchange,
        Phase::Done => ProtocolStep::OutputExchange,
    }
}

/// The layer a phase is working in, if any: the layer index a pre-protocol
/// failure (wrong tag, ill-fitting shapes) reports.
pub open spec fn phase_layer(s: &Session) -> Option<usize> {
    match s.phase {
        Phase::AwaitModel { .. } => None,
        Phase::AwaitInput => None,
        Phase::AwaitOutput { .. } => None,
        Phase::Done => None,
        _ => Some(s.idx),
    }
}

/// Whether this step can consume the CSPRNG: either in its own phase (the
/// DReLU mask round deals the BitXA boolean mask, the first Hadamard round
/// deals the arithmetic one), or by entering a rectifier layer as the
/// key-dealing party. Only such a step may fail with `Transport`.
pub open spec fn step_may_sample(s: &Session) -> bool {
    match s.phase {
        Phase::AwaitDReLUMask { .. } => true,
        Phase::AwaitHad1 { .. } => true,
        Phase::AwaitInput => s.party && 0 < s.layers@.len() && s.layers@[0] is ReLULayerShare,
        Phase::AwaitDot { .. } => s.party && s.idx + 1 < s.layers@.len() && s.layers@[s.idx
            + 1] is ReLULayerShare,
        Phase::AwaitBitXA { .. } => s.party && s.idx + 1 < s.layers@.len() && s.layers@[s.idx
            + 1] is ReLULayerShare,
        _ => false,
    }
}

/// The layer a failing CSPRNG draw reports: the layer the step samples
/// for — the phase's own layer, or the rectifier layer being entered.
pub open spec fn sampling_layer(s: &Session) -> Option<usize> {
    match s.phase {
        Phase::AwaitDReLUMask { .. } => Some(s.idx),
        Phase::AwaitHad1 { .. } => Some(s.idx),
        Phase::AwaitInput => Some(0usize),
        Phase::AwaitDot { .. } => Some((s.idx + 1) as usize),
        Phase::AwaitBitXA { .. } => Some((s.idx + 1) as usize),
        _ => None,
    }
}

/// What entering the layer at `idx` with activations `act` must produce:
/// the messages sent, the new phase, and — once past the last layer — the
/// final exchange of output shares.
pub open spec fn spec_advance_rel(
    party: bool,
    layers: Seq<LayerShare>,
    idx: nat,
    act: Seq<Com>,
    s2: &Session,
    outgoing: Seq<Message>,
    out: &Option<Vec<Com>>,
) -> bool {
    &&& s2.party == party
    &&& s2.layers@ == layers
    &&& s2.idx == idx
    &&& out is None
    &&& if idx == layers.len() {
        if party {
            &&& s2.phase is Done
            &&& outgoing.len() == 1
            &&& (outgoing[0] matches Message::OutputShare(o) && o@ == act)
        } else {
            &&& (s2.phase matches Phase::AwaitOutput { ours } && ours@ == act)
            &&& outgoing.len() == 0
        }
    } else {
        match layers[idx as int] {
            LayerShare::DenseLayerShare(d) => {
                &&& (s2.phase matches Phase::AwaitDot { ours } && {
                    &&& ours.e_share@ == seq_sub(act, seq_zero(act.len()))
                    &&& mat_view(&ours.f_share).len() == d.in_len()
                    &&& (forall|i: int|
                        0 <= i < d.in_len() ==> #[trigger] mat_view(&ours.f_share)[i] == seq_sub(
                            mat_view(&d.weights_share)[i],
                            seq_zero(d.out_len()),
                        ))
                    &&& outgoing.len() == 1
                    &&& (outgoing[0] matches Message::DotProductInteraction(m) && m.e_share@
                        == ours.e_share@ && mat_view(&m.f_share) == mat_view(&ours.f_share))
                })
            },
            LayerShare::ReLULayerShare(_) => {
                if party {
                    &&& (s2.phase matches Phase::AwaitDReLUMask { x, key, ours } && {
                        &&& x@ == act
                        &&& ours.masked_x_share@ == seq_add(act, key.r_in_1_share@)
                        &&& outgoing.len() == 2
                        &&& (outgoing[0] matches Message::DReLUKey(k1) && drelu_key_pair_ok(
                            &key,
                            &k1,
                            act.len(),
                        ))
                        &&& (outgoing[1] matches Message::DReLUInteraction(m)
                            && m.masked_x_share@ == ours.masked_x_share@)
                    })
                } else {
                    &&& (s2.phase matches Phase::AwaitDReLUKey { x } && x@ == act)
                    &&& outgoing.len() == 0
                }
            },
        }
    }
}

/// What one `step` must do in each phase, given the new state it produced:
/// the exact combine of the pure protocol functions, the exact messages
/// out, and the exact final output.
pub open spec fn spec_step_rel(
    s: &Session,
    msg: &Message,
    s2: &Session,
    outgoing: Seq<Message>,
    out: &Option<Vec<Com>>,
) -> bool {
    match s.phase {
        Phase::AwaitModel { input_keep } => {
            msg matches Message::ModelShare(ms) && spec_advance_rel(
                false,
                ms.layer_shares@,
                0,
                input_keep@,
                s2,
                outgoing,
                out,
            )
        },
        Phase::AwaitInput => {
            msg matches Message::InputShare(inp) && spec_advance_rel(
                true,
                s.layers@,
                0,
                inp@,
                s2,
                outgoing,
                out,
            )
        },
        Phase::AwaitDot { ours } => {
            msg matches Message::DotProductInteraction(theirs)
                && (s.layers@[s.idx as int] matches LayerShare::DenseLayerShare(d)
                && spec_advance_rel(
                s.party,
                s.layers@,
                s.idx as nat + 1,
                seq_add(
                    spec_dot_finish(
                        s.party,
                        seq_zero(d.in_len()),
                        crate::tensor::mat_zero(d.in_len(), d.out_len()),
                        seq_zero(d.out_len()),
                        ours.e_share@,
                        mat_view(&ours.f_share),
                        theirs.e_share@,
                        mat_view(&theirs.f_share),
                        d.out_len(),
                    ),
                    d.biases_share@,
                ),
                s2,
                outgoing,
                out,
            ))
        },
        Phase::AwaitDReLUKey { x } => {
            msg matches Message::DReLUKey(key) && {
                &&& s2.party == s.party
                &&& s2.layers@ == s.layers@
                &&& s2.idx == s.idx
                &&& out is None
                &&& (s2.phase matches Phase::AwaitDReLUMask { x: x2, key: key2, ours } && {
                    &&& x2@ == x@
                    &&& key2 == key
                    &&& ours.masked_x_share@ == seq_add(x@, key.r_in_1_share@)
                    &&& outgoing.len() == 1
                    &&& (outgoing[0] matches Message::DReLUInteraction(m) && m.masked_x_share@
                        == ours.masked_x_share@)
                })
            }
        },
        Phase::AwaitDReLUMask { x, key, ours } => {
            msg matches Message::DReLUInteraction(theirs) && {
                &&& s2.party == s.party
                &&& s2.layers@ == s.layers@
                &&& s2.idx == s.idx
                &&& out is None
                &&& (s2.phase matches Phase::AwaitHad1 { x: x2, y, mb, e, f, ours: ours1 } && {
                    let n = x@.len();
                    &&& x2@ == x@
                    &&& mb@.len() == n
                    &&& y@ == spec_drelu_finish(
                        s.party,
                        &key,
                        seq_add(ours.masked_x_share@, theirs.masked_x_share@),
                    )
                    &&& e@ == spec_bitxa_ef(s.party, seq_b2a(mb@)).0
                    &&& f@ == spec_bitxa_ef(s.party, seq_b2a(mb@)).1
                    &&& ours1.e_share@ == seq_sub(e@, seq_zero(n))
                    &&& ours1.f_share@ == seq_sub(f@, seq_zero(n))
                    &&& outgoing.len() == 1
                    &&& (outgoing[0] matches Message::HadamardProductInteraction(m) && m.e_share@
                        == ours1.e_share@ && m.f_share@ == ours1.f_share@)
                })
            }
        },
        Phase::AwaitHad1 { x, y, mb, e, f, ours } => {
            msg matches Message::HadamardProductInteraction(theirs) && {
                &&& s2.party == s.party
                &&& s2.layers@ == s.layers@
                &&& s2.idx == s.idx
                &&& out is None
                &&& (s2.phase matches Phase::AwaitHad2 { x: x2, y: y2, mb: mb2, dx, dy, ours: ours2 }
                    && {
                    let n = x@.len();
                    let ef = spec_hadamard_finish(
                        s.party,
                        seq_zero(n),
                        seq_zero(n),
                        seq_zero(n),
                        ours.e_share@,
                        ours.f_share@,
                        theirs.e_share@,
                        theirs.f_share@,
                    );
                    &&& x2@ == x@
                    &&& y2@ == y@
                    &&& mb2@ == mb@
                    &&& dx@.len() == n
                    &&& dy@ == seq_sub(seq_add(e@, f@), seq_add(ef, ef))
                    &&& ours2.e_share@ == seq_sub(dx@, seq_zero(n))
                    &&& ours2.f_share@ == seq_sub(dy@, seq_zero(n))
                    &&& outgoing.len() == 1
                    &&& (outgoing[0] matches Message::HadamardProductInteraction(m) && m.e_share@
                        == ours2.e_share@ && m.f_share@ == ours2.f_share@)
                })
            }
        },
        Phase::AwaitHad2 { x, y, mb, dx, dy, ours } => {
            msg matches Message::HadamardProductInteraction(theirs) && {
                &&& s2.party == s.party
                &&& s2.layers@ == s.layers@
                &&& s2.idx == s.idx
                &&& out is None
                &&& (s2.phase matches Phase::AwaitBitXA { dx: dx2, dy: dy2, dz, ours: ours3 } && {
                    let n = x@.len();
                    &&& dx2@ == dx@
                    &&& dy2@ == dy@
                    &&& dz@ == spec_hadamard_finish(
                        s.party,
                        seq_zero(n),
                        seq_zero(n),
                        seq_zero(n),
                        ours.e_share@,
                        ours.f_share@,
                        theirs.e_share@,
                        theirs.f_share@,
                    )
                    &&& ours3.capital_delta_x_share@ == seq_add(x@, dx@)
                    &&& ours3.capital_delta_y_share@ == seq_xor(y@, mb@)
                    &&& outgoing.len() == 1
                    &&& (outgoing[0] matches Message::BitXAInteraction(m)
                        && m.capital_delta_x_share@ == ours3.capital_delta_x_share@
                        && m.capital_delta_y_share@ == ours3.capital_delta_y_share@)
                })
            }
        },
        Phase::AwaitBitXA { dx, dy, dz, ours } => {
            msg matches Message::BitXAInteraction(theirs) && spec_advance_rel(
                s.party,
                s.layers@,
                s.idx as nat + 1,
                spec_bitxa_out(
                    s.party,
                    dx@,
                    dy@,
                    dz@,
                    seq_add(ours.capital_delta_x_share@, theirs.capital_delta_x_share@),
                    seq_xor(ours.capital_delta_y_share@, theirs.capital_delta_y_share@),
                ),
                s2,
                outgoing,
                out,
            )
        },
        Phase::AwaitOutput { ours } => {
            msg matches Message::OutputShare(theirs) && {
                &&& s2.phase is Done
                &&& outgoing.len() == 0
                &&& (out matches Some(o) && o@ == seq_add(ours@, theirs@))
            }
        },
        Phase::Done => false,
    }
}

/// Enters the layer at `idx` (or, past the last layer, the output
/// exchange): computes and queues this party's messages and parks the
/// session at its next await point.
fn advance(
    party: bool,
    layers: Vec<LayerShare>,
    idx: usize,
    act: Vec<Com>,
    rng: &ring::rand::SystemRandom,
) -> (r: Result<(Session, Vec<Message>, Option<Vec<Com>>), SessionError>)
    requires
        idx <= layers@.len(),
        share_chain_ok(layers@.skip(idx as int), act@.len()),
    ensures
        r matches Ok(t) ==> session_wf(&t.0) && spec_advance_rel(
            party,
            layers@,
            idx as nat,
            act@,
            &t.0,
            t.1@,
            &t.2,
        ),
        r matches Err(e) ==> {
            &&& e.kind == ErrorKind::Transport
            &&& e.step == ProtocolStep::Sampling
            &&& e.layer == Some(idx)
            &&& party
            &&& idx < layers@.len()
            &&& layers@[idx as int] is ReLULayerShare
        },
        !(party && idx < layers@.len() && layers@[idx as int] is ReLULayerShare) ==> r is Ok,
{
    let mut outgoing: Vec<Message> = Vec::new();
    if idx == layers.len() {
        if party {
            outgoing.push(Message::OutputShare(act));
            let s2 = Session { party, layers, idx, phase: Phase::Done };
            Ok((s2, outgoing, None))
        } else {
            let s2 = Session { party, layers, idx, phase: Phase::AwaitOutput { ours: act } };
            Ok((s2, outgoing, None))
        }
    } else {
        let ghost rest = layers@.skip(idx as int);
        proof {
            assert(rest[0] == layers@[idx as int]);
            assert(rest.drop_first() =~= layers@.skip(idx as int + 1));
        }
        let is_dense = match &layers[idx] {
            LayerShare::DenseLayerShare(_) => true,
            LayerShare::ReLULayerShare(_) => false,
        };
        if is_dense {
            let ours = match &layers[idx] {
                LayerShare::DenseLayerShare(d) => d.infer_message(&act),
                LayerShare::ReLULayerShare(_) => {
                    proof {
                        assert(false);
                    }
                    DotProductInteraction {
                        e_share: Vec::new(),
                        f_share: Matrix { rows: Vec::new() },
                    }
                },
            };
            let copy = DotProductInteraction {
                e_share: crate::tensor::vec_copy_com(&ours.e_share),
                f_share: copy_matrix(&ours.f_share),
            };
            outgoing.push(Message::DotProductInteraction(copy));
            let s2 = Session { party, layers, idx, phase: Phase::AwaitDot { ours } };
            Ok((s2, outgoing, None))
        } else {
            if party {
                let keys = match crate::drelu::generate_drelu_keys(act.len(), rng) {
                    Some(k) => k,
                    None => {
                        return Err(
                            SessionError::new(
                                ErrorKind::Transport,
                                Some(idx),
                                ProtocolStep::Sampling,
                            ),
                        );
                    },
                };
                let (k0, k1) = keys;
                let ours = crate::drelu::drelu_masked_share(&act, &k0);
                let copy = DReLUInteraction {
                    masked_x_share: crate::tensor::vec_copy_com(&ours.masked_x_share),
                };
                outgoing.push(Message::DReLUKey(k1));
                outgoing.push(Message::DReLUInteraction(copy));
                let s2 = Session {
                    party,
                    layers,
                    idx,
                    phase: Phase::AwaitDReLUMask { x: act, key: k0, ours },
                };
                Ok((s2, outgoing, None))
            } else {
                let s2 = Session { party, layers, idx, phase: Phase::AwaitDReLUKey { x: act } };
                Ok((s2, outgoing, None))
            }
        }
    }
}

/// A field-for-field copy of a matrix.
fn copy_matrix(m: &Matrix) -> (r: Matrix)
    ensures
        mat_view(&r) == mat_view(m),
{
    let n = m.rows.len();
    let mut rows: Vec<Vec<Com>> = Vec::new();
    let mut i: usize = 0;
    while i < n
        invariant
            n == m.rows@.len(),
            0 <= i <= n,
            rows@.len() == i,
            forall|k: int| 0 <= k < i ==> #[trigger] rows@[k]@ == m.rows@[k]@,
        decreases n - i,
    {
        rows.push(crate::tensor::vec_copy_com(&m.rows[i]));
        i += 1;
    }
    let r = Matrix { rows };
    assert(mat_view(&r) =~= mat_view(m));
    r
}

/// Starts a client session: the input is already split; one share is kept,
/// the other goes to the server, and the model share is awaited.
pub fn client_begin(input_keep: Vec<Com>, input_send: Vec<Com>) -> (r: (Session, Message))
    requires
        input_keep@.len() <= 0x1000_0000,
    ensures
        session_wf(&r.0),
        !r.0.party,
        (r.0.phase matches Phase::AwaitModel { input_keep: k } && k@ == input_keep@),
        (r.1 matches Message::InputShare(v) && v@ == input_send@),
{
    let s = Session {
        party: false,
        layers: Vec::new(),
        idx: 0,
        phase: Phase::AwaitModel { input_keep },
    };
    (s, Message::InputShare(input_send))
}

/// Starts a server session: the model is already split; one share is kept,
/// the other goes to the client, and the input share is awaited.
pub fn server_begin(keep: ModelShare, send: ModelShare) -> (r: (Session, Message))
    ensures
        session_wf(&r.0),
        r.0.party,
        r.0.layers@ == keep.layer_shares@,
        r.0.phase is AwaitInput,
        (r.1 matches Message::ModelShare(m) && m == send),
{
    let s = Session {
        party: true,
        layers: keep.layer_shares,
        idx: 0,
        phase: Phase::AwaitInput,
    };
    (s, Message::ModelShare(send))
}

impl Session {
    /// Whether the session has ended.
    pub fn is_done(&self) -> (r: bool)
        ensures
            r == (self.phase is Done),
    {
        match self.phase {
            Phase::Done => true,
            _ => false,
        }
    }

    /// Feeds one received message to the session. On success the new
    /// session state, the messages to send, and — for the client's final
    /// step — the reconstructed output. Fails with `UnexpectedMessage`
    /// exactly when the message's tag is not the one awaited (or the
    /// session is already done), with `DimensionMismatch` when the
    /// message's shapes do not fit, and with `Transport` only when a step
    /// that draws on the CSPRNG sees it fail — a step that samples nothing
    /// is owed success once tag and shapes fit. Every failure names the
    /// sub-protocol and the layer it arose in.
    #[verifier::rlimit(100)]
    #[verifier::spinoff_prover]
    pub fn step(self, msg: Message, rng: &ring::rand::SystemRandom) -> (r: Result<
        (Session, Vec<Message>, Option<Vec<Com>>),
        SessionError,
    >)
        requires
            session_wf(&self),
        ensures
            r matches Ok(t) ==> session_wf(&t.0) && spec_step_rel(&self, &msg, &t.0, t.1@, &t.2),
            r matches Err(e) ==> {
                &&& (e.kind == ErrorKind::UnexpectedMessage || e.kind == ErrorKind::DimensionMismatch
                    || e.kind == ErrorKind::Transport)
                &&& (e.kind == ErrorKind::UnexpectedMessage <==> !tag_matches(&self.phase, &msg))
            },
            tag_matches(&self.phase, &msg) && msg_fits(&self, &msg) ==> (r is Ok || (
            r matches Err(e) && e.kind == ErrorKind::Transport)),
            tag_matches(&self.phase, &msg) && !msg_fits(&self, &msg) ==> (r matches Err(e)
                && e.kind == ErrorKind::DimensionMismatch),
            tag_matches(&self.phase, &msg) && msg_fits(&self, &msg) && !step_may_sample(&self)
                ==> r is Ok,
            r matches Err(e) ==> (e.kind != ErrorKind::Transport ==> e.step == phase_step(
                &self.phase,
            ) && e.layer == phase_layer(&self)),
            r matches Err(e) ==> (e.kind == ErrorKind::Transport ==> e.step
                == ProtocolStep::Sampling && e.layer == sampling_layer(&self) && step_may_sample(
                &self,
            )),
    {
        let Session { party, layers, idx, phase } = self;
        match phase {
            Phase::AwaitModel { input_keep } => {
                match msg {
                    Message::ModelShare(ms) => {
                        if !check_share_chain(&ms.layer_shares, input_keep.len()) {
                            return Err(
                                SessionError::new(
                                    ErrorKind::DimensionMismatch,
                                    None,
                                    ProtocolStep::ModelExchange,
                                ),
                            );
                        }
                        proof {
                            assert(ms.layer_shares@.skip(0) =~= ms.layer_shares@);
                        }
                        advance(false, ms.layer_shares, 0, input_keep, rng)
                    },
                    _ => Err(
                        SessionError::new(
                            ErrorKind::UnexpectedMessage,
                            None,
                            ProtocolStep::ModelExchange,
                        ),
                    ),
                }
            },
            Phase::AwaitInput => {
                match msg {
                    Message::InputShare(inp) => {
                        if !check_share_chain(&layers, inp.len()) {
                            return Err(
                                SessionError::new(
                                    ErrorKind::DimensionMismatch,
                                    None,
                                    ProtocolStep::InputExchange,
                                ),
                            );
                        }
                        proof {
                            assert(layers@.skip(0) =~= layers@);
                        }
                        advance(true, layers, 0, inp, rng)
                    },
                    _ => Err(
                        SessionError::new(
                            ErrorKind::UnexpectedMessage,
                            None,
                            ProtocolStep::InputExchange,
                        ),
                    ),
                }
            },
            Phase::AwaitDot { ours } => {
                match msg {
                    Message::DotProductInteraction(theirs) => {
                        let ghost rest = layers@.skip(idx as int);
                        proof {
                            assert(idx < layers@.len());
                            assert(rest[0] == layers@[idx as int]);
                            assert(rest.drop_first() =~= layers@.skip(idx as int + 1));
                        }
                        let (act, ok) = match &layers[idx] {
                            LayerShare::DenseLayerShare(d) => {
                                let cols = d.biases_share.len();
                                if theirs.e_share.len() != ours.e_share.len()
                                    || theirs.f_share.nrows() != ours.e_share.len()
                                    || !theirs.f_share.is_rectangular(cols) {
                                    (Vec::new(), false)
                                } else {
                                    (d.infer_finish(party, &ours, &theirs), true)
                                }
                            },
                            LayerShare::ReLULayerShare(_) => {
                                proof {
                                    assert(false);
                                }
                                (Vec::new(), false)
                            },
                        };
                        if !ok {
                            return Err(
                                SessionError::new(
                                    ErrorKind::DimensionMismatch,
                                    Some(idx),
                                    ProtocolStep::DotProduct,
                                ),
                            );
                        }
                        let total = layers.len();
                        proof {
                            assert(idx < total);
                        }
                        advance(party, layers, idx + 1, act, rng)
                    },
                    _ => Err(
                        SessionError::new(
                            ErrorKind::UnexpectedMessage,
                            Some(idx),
                            ProtocolStep::DotProduct,
                        ),
                    ),
                }
            },
            Phase::AwaitDReLUKey { x } => {
                match msg {
                    Message::DReLUKey(key) => {
                        let n = x.len();
                        if key.r_in_1_share.len() != n || key.r_in_2.len() != n
                            || key.r_out_share.len() != n
                            || key.signed_comparison_key.ddcf_keys.alpha.len() != n
                            || key.signed_comparison_key.ddcf_keys.invert.len() != n
                            || key.signed_comparison_key.r_shares.len() != n {
                            return Err(
                                SessionError::new(
                                    ErrorKind::DimensionMismatch,
                                    Some(idx),
                                    ProtocolStep::DReLUKeyExchange,
                                ),
                            );
                        }
                        let ours = crate::drelu::drelu_masked_share(&x, &key);
                        let copy = DReLUInteraction {
                            masked_x_share: crate::tensor::vec_copy_com(&ours.masked_x_share),
                        };
                        let mut outgoing: Vec<Message> = Vec::new();
                        outgoing.push(Message::DReLUInteraction(copy));
                        let s2 = Session {
                            party,
                            layers,
                            idx,
                            phase: Phase::AwaitDReLUMask { x, key, ours },
                        };
                        Ok((s2, outgoing, None))
                    },
                    _ => Err(
                        SessionError::new(
                            ErrorKind::UnexpectedMessage,
                            Some(idx),
                            ProtocolStep::DReLUKeyExchange,
                        ),
                    ),
                }
            },
            Phase::AwaitDReLUMask { x, key, ours } => {
                match msg {
                    Message::DReLUInteraction(theirs) => {
                        let n = x.len();
                        if theirs.masked_x_share.len() != n {
                            return Err(
                                SessionError::new(
                                    ErrorKind::DimensionMismatch,
                                    Some(idx),
                                    ProtocolStep::DReLUMaskExchange,
                                ),
                            );
                        }
                        let masked = DReLUInteraction::reconstruct((&ours, &theirs));
                        let y = crate::drelu::drelu_finish(party, &key, &masked);
                        let mb = match crate::bit::sample(n, rng) {
                            Some(b) => b,
                            None => {
                                return Err(
                                    SessionError::new(
                                        ErrorKind::Transport,
                                        Some(idx),
                                        ProtocolStep::Sampling,
                                    ),
                                );
                            },
                        };
                        let ma = crate::tensor::vec_b2a(&mb);
                        let (e, f) = crate::bitxa::bitxa_ef_shares(party, &ma);
                        let mt = MultiplicationTripletShare::new(n);
                        let ours1 = mt.hadamard_message(&e, &f);
                        let copy = mt.hadamard_message(&e, &f);
                        let mut outgoing: Vec<Message> = Vec::new();
                        outgoing.push(Message::HadamardProductInteraction(copy));
                        let s2 = Session {
                            party,
                            layers,
                            idx,
                            phase: Phase::AwaitHad1 { x, y, mb, e, f, ours: ours1 },
                        };
                        Ok((s2, outgoing, None))
                    },
                    _ => Err(
                        SessionError::new(
                            ErrorKind::UnexpectedMessage,
                            Some(idx),
                            ProtocolStep::DReLUMaskExchange,
                        ),
                    ),
                }
            },
            Phase::AwaitHad1 { x, y, mb, e, f, ours } => {
                match msg {
                    Message::HadamardProductInteraction(theirs) => {
                        let n = x.len();
                        if theirs.e_share.len() != n || theirs.f_share.len() != n {
                            return Err(
                                SessionError::new(
                                    ErrorKind::DimensionMismatch,
                                    Some(idx),
                                    ProtocolStep::BitXAHadamard,
                                ),
                            );
                        }
                        let mt = MultiplicationTripletShare::new(n);
                        let ef = mt.hadamard_finish(party, &ours, &theirs);
                        let dy = crate::bitxa::bitxa_delta_y_share(&e, &f, &ef);
                        let dxr = match crate::rng::sample_com(n, rng) {
                            Some(v) => v,
                            None => {
                                return Err(
                                    SessionError::new(
                                        ErrorKind::Transport,
                                        Some(idx),
                                        ProtocolStep::Sampling,
                                    ),
                                );
                            },
                        };
                        let dx = crate::tensor::vec_div256(&dxr);
                        let mt2 = MultiplicationTripletShare::new(n);
                        let ours2 = mt2.hadamard_message(&dx, &dy);
                        let copy = mt2.hadamard_message(&dx, &dy);
                        let mut outgoing: Vec<Message> = Vec::new();
                        outgoing.push(Message::HadamardProductInteraction(copy));
                        let s2 = Session {
                            party,
                            layers,
                            idx,
                            phase: Phase::AwaitHad2 { x, y, mb, dx, dy, ours: ours2 },
                        };
                        Ok((s2, outgoing, None))
                    },
                    _ => Err(
                        SessionError::new(
                            ErrorKind::UnexpectedMessage,
                            Some(idx),
                            ProtocolStep::BitXAHadamard,
                        ),
                    ),
                }
            },
            Phase::AwaitHad2 { x, y, mb, dx, dy, ours } => {
                match msg {
                    Message::HadamardProductInteraction(theirs) => {
                        let n = x.len();
                        if theirs.e_share.len() != n || theirs.f_share.len() != n {
                            return Err(
                                SessionError::new(
                                    ErrorKind::DimensionMismatch,
                                    Some(idx),
                                    ProtocolStep::BitXAHadamard,
                                ),
                            );
                        }
                        let mt = MultiplicationTripletShare::new(n);
                        let dz = mt.hadamard_finish(party, &ours, &theirs);
                        let ours3 = crate::bitxa::bitxa_mask_message(&x, &dx, &y, &mb);
                        let copy = crate::bitxa::bitxa_mask_message(&x, &dx, &y, &mb);
                        let mut outgoing: Vec<Message> = Vec::new();
                        outgoing.push(Message::BitXAInteraction(copy));
                        let s2 = Session {
                            party,
                            layers,
                            idx,
                            phase: Phase::AwaitBitXA { dx, dy, dz, ours: ours3 },
                        };
                        Ok((s2, outgoing, None))
                    },
                    _ => Err(
                        SessionError::new(
                            ErrorKind::UnexpectedMessage,
                            Some(idx),
                            ProtocolStep::BitXAHadamard,
                        ),
                    ),
                }
            },
            Phase::AwaitBitXA { dx, dy, dz, ours } => {
                match msg {
                    Message::BitXAInteraction(theirs) => {
                        let n = dx.len();
                        if theirs.capital_delta_x_share.len() != n
                            || theirs.capital_delta_y_share.len() != n {
                            return Err(
                                SessionError::new(
                                    ErrorKind::DimensionMismatch,
                                    Some(idx),
                                    ProtocolStep::BitXAMaskExchange,
                                ),
                            );
                        }
                        let deltas = BitXAInteraction::reconstruct((&ours, &theirs));
                        let act = crate::bitxa::bitxa_finish(party, &dx, &dy, &dz, &deltas);
                        let ghost rest = layers@.skip(idx as int);
                        proof {
                            assert(idx < layers@.len());
                            assert(rest[0] == layers@[idx as int]);
                            assert(rest.drop_first() =~= layers@.skip(idx as int + 1));
                        }
                        let total = layers.len();
                        proof {
                            assert(idx < total);
                        }
                        advance(party, layers, idx + 1, act, rng)
                    },
                    _ => Err(
                        SessionError::new(
                            ErrorKind::UnexpectedMessage,
                            Some(idx),
                            ProtocolStep::BitXAMaskExchange,
                        ),
                    ),
                }
            },
            Phase::AwaitOutput { ours } => {
                match msg {
                    Message::OutputShare(theirs) => {
                        if theirs.len() != ours.len() {
                            return Err(
                                SessionError::new(
                                    ErrorKind::DimensionMismatch,
                                    None,
                                    ProtocolStep::OutputExchange,
                                ),
                            );
                        }
                        let output = crate::reconstruct::reconstruct_com_vec(&ours, &theirs);
                        let s2 = Session { party, layers, idx, phase: Phase::Done };
                        Ok((s2, Vec::new(), Some(output)))
                    },
                    _ => Err(
                        SessionError::new(
                            ErrorKind::UnexpectedMessage,
                            None,
                            ProtocolStep::OutputExchange,
                        ),
                    ),
                }
            },
            Phase::Done => Err(
                SessionError::new(ErrorKind::UnexpectedMessage, None, ProtocolStep::OutputExchange),
            ),
        }
    }
}

} // verus!
