use vstd::prelude::*;

use crate::com::Com;
use crate::message::DotProductInteraction;
use crate::tensor::{is_rect, mat_view, seq_add, seq_dot, vec_add, vec_mat_dot, Matrix};
use crate::triplet::{spec_dot_finish, DotProductTripletShare};

verus! {

/// A fully connected layer: a K-by-M weight matrix and an M-vector of
/// biases. The layer maps a K-vector x to x.W + b.
#[derive(Debug)]
pub struct DenseLayer {
    pub weights: Matrix,
    pub biases: Vec<Com>,
}

/// One party's additive share of a dense layer.
#[derive(Debug)]
pub struct DenseLayerShare {
    pub weights_share: Matrix,
    pub biases_share: Vec<Com>,
}

/// The plaintext evaluation of a dense layer.
pub open spec fn spec_dense_eval(w: Seq<Seq<Com>>, b: Seq<Com>, x: Seq<Com>) -> Seq<Com> {
    seq_add(seq_dot(x, w, b.len()), b)
}

impl DenseLayer {
    pub open spec fn wf(&self) -> bool {
        is_rect(mat_view(&self.weights), self.biases@.len())
    }

    pub open spec fn in_len(&self) -> nat {
        mat_view(&self.weights).len()
    }

    pub open spec fn out_len(&self) -> nat {
        self.biases@.len()
    }

    /// Evaluates the layer in plaintext.
    pub fn infer_locally(&self, input: &Vec<Com>) -> (r: Vec<Com>)
        requires
            self.wf(),
            input@.len() == self.in_len(),
        ensures
            r@ == spec_dense_eval(mat_view(&self.weights), self.biases@, input@),
            r@.len() == self.out_len(),
    {
        let product = vec_mat_dot(input, &self.weights, self.biases.len());
        vec_add(&product, &self.biases)
    }

    /// Splits the layer into two additive shares. Fails only if the CSPRNG
    /// does.
    pub fn split(&self, rng: &ring::rand::SystemRandom) -> (r: Option<
        (DenseLayerShare, DenseLayerShare),
    >)
        requires
            self.wf(),
            self.biases@.len() <= 0x1000_0000,
        ensures
            r is Some ==> dense_share_of(&r.unwrap().0, &r.unwrap().1, self),
    {
        let w_shares = match crate::split::split_com_matrix(&self.weights, self.biases.len(), rng) {
            Some(s) => s,
            None => {
                return None;
            },
        };
        let b_shares = match crate::split::split_com_vec(&self.biases, rng) {
            Some(s) => s,
            None => {
                return None;
            },
        };
        Some((
            DenseLayerShare { weights_share: w_shares.0, biases_share: b_shares.0 },
            DenseLayerShare { weights_share: w_shares.1, biases_share: b_shares.1 },
        ))
    }
}

/// Whether two dense-layer shares are an additive sharing of a layer.
pub open spec fn dense_share_of(s0: &DenseLayerShare, s1: &DenseLayerShare, l: &DenseLayer) -> bool {
    &&& s0.wf()
    &&& s1.wf()
    &&& s0.in_len() == l.in_len()
    &&& s1.in_len() == l.in_len()
    &&& s0.out_len() == l.out_len()
    &&& s1.out_len() == l.out_len()
    &&& forall|i: int|
        0 <= i < l.in_len() ==> seq_add(
            #[trigger] mat_view(&s0.weights_share)[i],
            mat_view(&s1.weights_share)[i],
        ) == mat_view(&l.weights)[i]
    &&& seq_add(s0.biases_share@, s1.biases_share@) == l.biases@
}

impl DenseLayerShare {
    pub open spec fn wf(&self) -> bool {
        is_rect(mat_view(&self.weights_share), self.biases_share@.len())
    }

    pub open spec fn in_len(&self) -> nat {
        mat_view(&self.weights_share).len()
    }

    pub open spec fn out_len(&self) -> nat {
        self.biases_share@.len()
    }

    /// The masked-operand message of the share-local dot-product protocol,
    /// under a fresh all-zeros triplet.
    pub fn infer_message(&self, input_share: &Vec<Com>) -> (r: DotProductInteraction)
        requires
            self.wf(),
            input_share@.len() == self.in_len(),
        ensures
            r.e_share@ == crate::tensor::seq_sub(
                input_share@,
                crate::tensor::seq_zero(input_share@.len()),
            ),
            mat_view(&r.f_share).len() == self.in_len(),
            forall|i: int|
                0 <= i < self.in_len() ==> #[trigger] mat_view(&r.f_share)[i]
                    == crate::tensor::seq_sub(
                    mat_view(&self.weights_share)[i],
                    crate::tensor::seq_zero(self.out_len()),
                ),
            is_rect(mat_view(&r.f_share), self.out_len()),
    {
        let mt = DotProductTripletShare::new(input_share.len(), self.biases_share.len());
        let r = mt.dot_message(input_share, &self.weights_share, self.biases_share.len());
        proof {
            assert forall|i: int| 0 <= i < self.in_len() implies #[trigger] mat_view(
                &r.f_share,
            )[i].len() == self.out_len() by {
                assert(mat_view(&r.f_share)[i] == crate::tensor::seq_sub(
                    mat_view(&self.weights_share)[i],
                    mat_view(&mt.b_share)[i],
                ));
            }
        }
        r
    }

    /// Finishes the share-local dot product from both parties' messages and
    /// adds this party's bias share.
    pub fn infer_finish(
        &self,
        party: bool,
        ours: &DotProductInteraction,
        theirs: &DotProductInteraction,
    ) -> (r: Vec<Com>)
        requires
            self.wf(),
            ours.e_share@.len() == self.in_len(),
            theirs.e_share@.len() == self.in_len(),
            mat_view(&ours.f_share).len() == self.in_len(),
            mat_view(&theirs.f_share).len() == self.in_len(),
            is_rect(mat_view(&ours.f_share), self.out_len()),
            is_rect(mat_view(&theirs.f_share), self.out_len()),
        ensures
            r@ == seq_add(
                spec_dot_finish(
                    party,
                    crate::tensor::seq_zero(self.in_len()),
                    crate::tensor::mat_zero(self.in_len(), self.out_len()),
                    crate::tensor::seq_zero(self.out_len()),
                    ours.e_share@,
                    mat_view(&ours.f_share),
                    theirs.e_share@,
                    mat_view(&theirs.f_share),
                    self.out_len(),
                ),
                self.biases_share@,
            ),
            r@.len() == self.out_len(),
    {
        let mt = DotProductTripletShare::new(ours.e_share.len(), self.biases_share.len());
        let product = mt.dot_finish(party, ours, theirs, self.biases_share.len());
        proof {
            assert(mt.a_share@ =~= crate::tensor::seq_zero(self.in_len()));
            assert(mat_view(&mt.b_share) =~= crate::tensor::mat_zero(
                self.in_len(),
                self.out_len(),
            ));
            assert(mt.ab_share@ =~= crate::tensor::seq_zero(self.out_len()));
        }
        vec_add(&product, &self.biases_share)
    }
}

} // verus!
