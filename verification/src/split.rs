use vstd::prelude::*;

use crate::com::{lemma_add_sub_identity, Com};
use crate::tensor::{is_rect, mat_sub, mat_view, seq_add, seq_sub, seq_xor, Matrix};

verus! {

/// Additively splits a scalar tensor: the first share is sampled uniformly,
/// the second is chosen so that the two shares sum (wrapping,
/// componentwise) to the secret. Fails only if the CSPRNG does.
pub fn split_com_vec(v: &Vec<Com>, rng: &ring::rand::SystemRandom) -> (r: Option<
    (Vec<Com>, Vec<Com>),
>)
    requires
        v@.len() <= 0x1000_0000,
    ensures
        r is Some ==> {
            &&& r.unwrap().0@.len() == v@.len()
            &&& r.unwrap().1@.len() == v@.len()
            &&& seq_add(r.unwrap().0@, r.unwrap().1@) == v@
        },
{
    let first = match crate::rng::sample_com(v.len(), rng) {
        Some(s) => s,
        None => {
            return None;
        },
    };
    let second = crate::tensor::vec_sub(v, &first);
    proof {
        assert forall|i: int| 0 <= i < v@.len() implies seq_add(first@, seq_sub(v@, first@))[i]
            == v@[i] by {
            lemma_add_sub_identity(first@[i], v@[i]);
        }
        assert(seq_add(first@, second@) =~= v@);
    }
    Some((first, second))
}

/// Additively splits a matrix, row by row, with the same invariant as
/// `split_com_vec`.
pub fn split_com_matrix(m: &Matrix, cols: usize, rng: &ring::rand::SystemRandom) -> (r: Option<
    (Matrix, Matrix),
>)
    requires
        cols <= 0x1000_0000,
        is_rect(mat_view(m), cols as nat),
    ensures
        r is Some ==> {
            &&& mat_view(&r.unwrap().0).len() == mat_view(m).len()
            &&& mat_view(&r.unwrap().1).len() == mat_view(m).len()
            &&& is_rect(mat_view(&r.unwrap().0), cols as nat)
            &&& is_rect(mat_view(&r.unwrap().1), cols as nat)
            &&& forall|i: int|
                0 <= i < mat_view(m).len() ==> seq_add(
                    #[trigger] mat_view(&r.unwrap().0)[i],
                    mat_view(&r.unwrap().1)[i],
                ) == mat_view(m)[i]
        },
{
    let first = match crate::rng::sample_com_matrix(m.nrows(), cols, rng) {
        Some(s) => s,
        None => {
            return None;
        },
    };
    let second = mat_sub(m, &first);
    proof {
        assert forall|i: int| 0 <= i < mat_view(m).len() implies seq_add(
            mat_view(&first)[i],
            mat_view(&second)[i],
        ) == mat_view(m)[i] by {
            let a = mat_view(&first)[i];
            let b = mat_view(m)[i];
            assert(mat_view(&second)[i] == seq_sub(b, a));
            assert forall|k: int| 0 <= k < b.len() implies seq_add(a, seq_sub(b, a))[k]
                == b[k] by {
                lemma_add_sub_identity(a[k], b[k]);
            }
            assert(seq_add(a, seq_sub(b, a)) =~= b);
        }
    }
    Some((first, second))
}

/// Splits a bit tensor by exclusive or: the first share is sampled
/// uniformly, the second is the componentwise XOR with the secret, so the
/// two shares XOR back to it. Fails only if the CSPRNG does.
pub fn split_bool_vec(v: &Vec<bool>, rng: &ring::rand::SystemRandom) -> (r: Option<
    (Vec<bool>, Vec<bool>),
>)
    requires
        v@.len() <= 0x1000_0000,
    ensures
        r is Some ==> {
            &&& r.unwrap().0@.len() == v@.len()
            &&& r.unwrap().1@.len() == v@.len()
            &&& seq_xor(r.unwrap().0@, r.unwrap().1@) == v@
        },
{
    let first = match crate::bit::sample(v.len(), rng) {
        Some(s) => s,
        None => {
            return None;
        },
    };
    let second = crate::tensor::vec_xor(v, &first);
    proof {
        assert(seq_xor(first@, second@) =~= v@);
    }
    Some((first, second))
}

} // verus!
