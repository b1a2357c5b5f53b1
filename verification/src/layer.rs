use vstd::prelude::*;

use crate::com::Com;
use crate::dense_layer::{dense_share_of, spec_dense_eval, DenseLayer, DenseLayerShare};
use crate::relu::{spec_relu_eval, ReLULayer, ReLULayerShare};
use crate::tensor::mat_view;

verus! {

/// A network layer: fully connected, or a rectifier.
#[derive(Debug)]
pub enum Layer {
    DenseLayer(DenseLayer),
    ReLULayer(ReLULayer),
}

/// One party's share of a layer.
#[derive(Debug)]
pub enum LayerShare {
    DenseLayerShare(DenseLayerShare),
    ReLULayerShare(ReLULayerShare),
}

/// Whether a layer is well formed and accepts an input of length `n`.
pub open spec fn layer_in_ok(l: &Layer, n: nat) -> bool {
    match l {
        Layer::DenseLayer(d) => d.wf() && n == d.in_len(),
        Layer::ReLULayer(_) => true,
    }
}

/// The length of a layer's output, given an input of length `n`.
pub open spec fn layer_out_len(l: &Layer, n: nat) -> nat {
    match l {
        Layer::DenseLayer(d) => d.out_len(),
        Layer::ReLULayer(_) => n,
    }
}

/// The plaintext evaluation of one layer.
pub open spec fn spec_layer_eval(l: &Layer, x: Seq<Com>) -> Seq<Com> {
    match l {
        Layer::DenseLayer(d) => spec_dense_eval(mat_view(&d.weights), d.biases@, x),
        Layer::ReLULayer(_) => spec_relu_eval(x),
    }
}

/// Whether two layer shares are a sharing of a layer.
pub open spec fn layer_share_of(s0: &LayerShare, s1: &LayerShare, l: &Layer) -> bool {
    match l {
        Layer::DenseLayer(d) => match (s0, s1) {
            (LayerShare::DenseLayerShare(d0), LayerShare::DenseLayerShare(d1)) => dense_share_of(
                d0,
                d1,
                d,
            ),
            _ => false,
        },
        Layer::ReLULayer(_) => s0 is ReLULayerShare && s1 is ReLULayerShare,
    }
}

impl Layer {
    /// Evaluates the layer in plaintext.
    pub fn infer_locally(&self, input: &Vec<Com>) -> (r: Vec<Com>)
        requires
            layer_in_ok(self, input@.len()),
        ensures
            r@ == spec_layer_eval(self, input@),
            r@.len() == layer_out_len(self, input@.len()),
    {
        match self {
            Layer::DenseLayer(dense_layer) => dense_layer.infer_locally(input),
            Layer::ReLULayer(relu_layer) => relu_layer.infer_locally(input),
        }
    }

    /// Splits the layer into two shares. Fails only if the CSPRNG does —
    /// so a rectifier layer, which holds nothing to sample, always splits.
    pub fn split(&self, rng: &ring::rand::SystemRandom) -> (r: Option<(LayerShare, LayerShare)>)
        requires
            layer_wf(self),
        ensures
            r is Some ==> layer_share_of(&r.unwrap().0, &r.unwrap().1, self),
            self is ReLULayer ==> r is Some,
    {
        match self {
            Layer::DenseLayer(dense_layer) => {
                match dense_layer.split(rng) {
                    Some(shares) => Some(
                        (
                            LayerShare::DenseLayerShare(shares.0),
                            LayerShare::DenseLayerShare(shares.1),
                        ),
                    ),
                    None => None,
                }
            },
            Layer::ReLULayer(relu_layer) => {
                let shares = relu_layer.split();
                Some((LayerShare::ReLULayerShare(shares.0), LayerShare::ReLULayerShare(shares.1)))
            },
        }
    }
}

/// Whether a layer is well formed on its own (shapes consistent and small
/// enough to sample shares for).
pub open spec fn layer_wf(l: &Layer) -> bool {
    match l {
        Layer::DenseLayer(d) => d.wf() && d.out_len() <= 0x1000_0000,
        Layer::ReLULayer(_) => true,
    }
}

} // verus!
