use vstd::prelude::*;

use crate::com::Com;
use crate::layer::{
    layer_in_ok, layer_out_len, layer_share_of, layer_wf, spec_layer_eval, Layer, LayerShare,
};

verus! {

/// A feed-forward model: an ordered sequence of layers.
#[derive(Debug)]
pub struct Model {
    pub layers: Vec<Layer>,
}

/// One party's share of a model: an ordered sequence of layer shares.
#[derive(Debug)]
pub struct ModelShare {
    pub layer_shares: Vec<LayerShare>,
}

/// Whether a chain of layers is well formed and accepts an input of length
/// `n`, each layer feeding the next.
pub open spec fn model_in_ok(layers: Seq<Layer>, n: nat) -> bool
    decreases layers.len(),
{
    layers.len() == 0 || (layer_wf(&layers[0]) && layer_in_ok(&layers[0], n) && model_in_ok(
        layers.drop_first(),
        layer_out_len(&layers[0], n),
    ))
}

/// The length of the chain's output on an input of length `n`.
pub open spec fn model_out_len(layers: Seq<Layer>, n: nat) -> nat
    decreases layers.len(),
{
    if layers.len() == 0 {
        n
    } else {
        model_out_len(layers.drop_first(), layer_out_len(&layers[0], n))
    }
}

/// The plaintext evaluation of the chain, layer after layer.
pub open spec fn spec_model_eval(layers: Seq<Layer>, x: Seq<Com>) -> Seq<Com>
    decreases layers.len(),
{
    if layers.len() == 0 {
        x
    } else {
        spec_model_eval(layers.drop_first(), spec_layer_eval(&layers[0], x))
    }
}

/// Whether two model shares are a sharing of a model, layer by layer.
pub open spec fn model_share_of(s0: &ModelShare, s1: &ModelShare, m: &Model) -> bool {
    &&& s0.layer_shares@.len() == m.layers@.len()
    &&& s1.layer_shares@.len() == m.layers@.len()
    &&& forall|i: int|
        0 <= i < m.layers@.len() ==> layer_share_of(
            #[trigger] &s0.layer_shares@[i],
            &s1.layer_shares@[i],
            &m.layers@[i],
        )
}

impl Model {
    /// Evaluates the model in plaintext, chaining the layers left to right.
    pub fn infer_locally(&self, input: Vec<Com>) -> (r: Vec<Com>)
        requires
            model_in_ok(self.layers@, input@.len()),
        ensures
            r@ == spec_model_eval(self.layers@, input@),
            r@.len() == model_out_len(self.layers@, input@.len()),
    {
        let total = self.layers.len();
        let mut activations = input;
        let ghost full_input = activations@;
        proof {
            assert(self.layers@.skip(0) =~= self.layers@);
        }
        let mut i: usize = 0;
        while i < total
            invariant
                total == self.layers@.len(),
                0 <= i <= total,
                model_in_ok(self.layers@.skip(i as int), activations@.len()),
                spec_model_eval(self.layers@.skip(i as int), activations@) == spec_model_eval(
                    self.layers@,
                    full_input,
                ),
                model_out_len(self.layers@.skip(i as int), activations@.len()) == model_out_len(
                    self.layers@,
                    full_input.len(),
                ),
            decreases total - i,
        {
            let ghost pre = self.layers@.skip(i as int);
            assert(pre[0] == self.layers@[i as int]);
            assert(pre.drop_first() =~= self.layers@.skip(i as int + 1));
            activations = self.layers[i].infer_locally(&activations);
            i += 1;
        }
        assert(self.layers@.skip(total as int) =~= Seq::<Layer>::empty());
        activations
    }

    /// Splits the model into two shares, layer by layer. Fails only if the
    /// CSPRNG does, which only a dense layer consults — a model of
    /// rectifier layers alone always splits.
    pub fn split(&self, rng: &ring::rand::SystemRandom) -> (r: Option<(ModelShare, ModelShare)>)
        requires
            forall|i: int| 0 <= i < self.layers@.len() ==> layer_wf(#[trigger] &self.layers@[i]),
        ensures
            r is Some ==> model_share_of(&r.unwrap().0, &r.unwrap().1, self),
            (forall|i: int| 0 <= i < self.layers@.len() ==> #[trigger] self.layers@[i] is ReLULayer)
                ==> r is Some,
    {
        let total = self.layers.len();
        let mut first: Vec<LayerShare> = Vec::new();
        let mut second: Vec<LayerShare> = Vec::new();
        let mut i: usize = 0;
        while i < total
            invariant
                total == self.layers@.len(),
                forall|k: int| 0 <= k < total ==> layer_wf(#[trigger] &self.layers@[k]),
                0 <= i <= total,
                first@.len() == i,
                second@.len() == i,
                forall|k: int|
                    0 <= k < i ==> layer_share_of(
                        #[trigger] &first@[k],
                        &second@[k],
                        &self.layers@[k],
                    ),
            decreases total - i,
        {
            let shares = match self.layers[i].split(rng) {
                Some(s) => s,
                None => {
                    proof {
                        assert(!(self.layers@[i as int] is ReLULayer));
                    }
                    return None;
                },
            };
            first.push(shares.0);
            second.push(shares.1);
            i += 1;
        }
        Some((ModelShare { layer_shares: first }, ModelShare { layer_shares: second }))
    }

    /// Whether every layer is well formed on its own (dense matrices
    /// rectangular and of sampleable size) — what `split` needs of a model
    /// that arrived from a file.
    pub fn layers_well_formed(&self) -> (r: bool)
        ensures
            r == (forall|i: int|
                0 <= i < self.layers@.len() ==> layer_wf(#[trigger] &self.layers@[i])),
    {
        let total = self.layers.len();
        let mut i: usize = 0;
        while i < total
            invariant
                total == self.layers@.len(),
                0 <= i <= total,
                forall|k: int| 0 <= k < i ==> layer_wf(#[trigger] &self.layers@[k]),
            decreases total - i,
        {
            match &self.layers[i] {
                Layer::DenseLayer(d) => {
                    let cols = d.biases.len();
                    if !d.weights.is_rectangular(cols) {
                        assert(!layer_wf(&self.layers@[i as int]));
                        return false;
                    }
                    if cols > 0x1000_0000 {
                        assert(!layer_wf(&self.layers@[i as int]));
                        return false;
                    }
                },
                Layer::ReLULayer(_) => {},
            }
            i += 1;
        }
        true
    }

    /// Whether the chain of layers is well formed and accepts an input of
    /// length `n` — what `infer_locally` needs of a model and input that
    /// arrived from outside.
    pub fn accepts_input(&self, n: usize) -> (r: bool)
        ensures
            r == model_in_ok(self.layers@, n as nat),
    {
        let total = self.layers.len();
        let mut dim: usize = n;
        proof {
            assert(self.layers@.skip(0) =~= self.layers@);
        }
        let mut i: usize = 0;
        while i < total
            invariant
                total == self.layers@.len(),
                0 <= i <= total,
                model_in_ok(self.layers@, n as nat) == model_in_ok(
                    self.layers@.skip(i as int),
                    dim as nat,
                ),
            decreases total - i,
        {
            let ghost pre = self.layers@.skip(i as int);
            assert(pre[0] == self.layers@[i as int]);
            assert(pre.drop_first() =~= self.layers@.skip(i as int + 1));
            match &self.layers[i] {
                Layer::DenseLayer(d) => {
                    let cols = d.biases.len();
                    if !d.weights.is_rectangular(cols) {
                        return false;
                    }
                    if cols > 0x1000_0000 {
                        return false;
                    }
                    if d.weights.nrows() != dim {
                        return false;
                    }
                    dim = cols;
                },
                Layer::ReLULayer(_) => {},
            }
            i += 1;
        }
        assert(self.layers@.skip(total as int) =~= Seq::<Layer>::empty());
        true
    }
}

impl ModelShare {
    /// An empty model share, extended layer by layer.
    pub fn new() -> (r: ModelShare)
        ensures
            r.layer_shares@.len() == 0,
    {
        ModelShare { layer_shares: Vec::new() }
    }

    /// Appends further layer shares.
    pub fn extend(&mut self, more: Vec<LayerShare>)
        ensures
            final(self).layer_shares@ == old(self).layer_shares@ + more@,
    {
        let mut more = more;
        let count = more.len();
        let ghost start = self.layer_shares@;
        let ghost more_view = more@;
        let mut i: usize = 0;
        while i < count
            invariant
                count == more_view.len(),
                more@ == more_view.skip(i as int),
                0 <= i <= count,
                self.layer_shares@ == start + more_view.take(i as int),
            decreases count - i,
        {
            assert(more@[0] == more_view[i as int]);
            let share = more.remove(0);
            self.layer_shares.push(share);
            proof {
                assert(more_view.take(i as int + 1) =~= more_view.take(i as int).push(
                    more_view[i as int],
                ));
                assert(more@ =~= more_view.skip(i as int + 1));
            }
            i += 1;
        }
        proof {
            assert(more_view.take(count as int) =~= more_view);
        }
    }
}

} // verus!
