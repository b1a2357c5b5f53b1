use vstd::prelude::*;

use crate::com::{lemma_add_sub_identity, Com};
use crate::tensor::{mat_add, mat_view, seq_add, seq_sub, seq_xor, Matrix};

verus! {

/// Local reconstruction of an additively shared tensor: the componentwise
/// wrapping sum of the two shares.
pub fn reconstruct_com_vec(a: &Vec<Com>, b: &Vec<Com>) -> (r: Vec<Com>)
    requires
        a@.len() == b@.len(),
    ensures
        r@ == seq_add(a@, b@),
{
    crate::tensor::vec_add(a, b)
}

/// Local reconstruction of an XOR-shared bit tensor.
pub fn reconstruct_bool_vec(a: &Vec<bool>, b: &Vec<bool>) -> (r: Vec<bool>)
    requires
        a@.len() == b@.len(),
    ensures
        r@ == seq_xor(a@, b@),
{
    crate::tensor::vec_xor(a, b)
}

/// Reconstruction inverts splitting on every tensor: whatever first share
/// the splitter drew, adding the complementary share it computed gives the
/// secret back — and likewise for XOR shares of bit tensors.
pub proof fn lemma_reconstruct_inverts_split(v: Seq<Com>, s0: Seq<Com>, b: Seq<bool>, b0: Seq<bool>)
    requires
        s0.len() == v.len(),
        b0.len() == b.len(),
    ensures
        seq_add(s0, seq_sub(v, s0)) == v,
        seq_xor(b0, seq_xor(b, b0)) == b,
{
    assert forall|i: int| 0 <= i < v.len() implies seq_add(s0, seq_sub(v, s0))[i] == v[i] by {
        lemma_add_sub_identity(s0[i], v[i]);
    }
    assert(seq_add(s0, seq_sub(v, s0)) =~= v);
    assert(seq_xor(b0, seq_xor(b, b0)) =~= b);
}

/// Local reconstruction of an additively shared matrix, row by row.
pub fn reconstruct_matrix(a: &Matrix, b: &Matrix) -> (r: Matrix)
    requires
        mat_view(a).len() == mat_view(b).len(),
        forall|i: int|
            0 <= i < mat_view(a).len() ==> #[trigger] mat_view(a)[i].len() == mat_view(b)[i].len(),
    ensures
        mat_view(&r).len() == mat_view(a).len(),
        forall|i: int|
            0 <= i < mat_view(a).len() ==> #[trigger] mat_view(&r)[i] == seq_add(
                mat_view(a)[i],
                mat_view(b)[i],
            ),
{
    mat_add(a, b)
}

} // verus!
