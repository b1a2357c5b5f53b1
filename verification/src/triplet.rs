use vstd::prelude::*;

use crate::com::{lemma_add_zero, lemma_mul_zero, spec_zero, Com};
use crate::message::{DotProductInteraction, HadamardProductInteraction};
use crate::tensor::{
    dot_entry, is_rect, mat_add, mat_add_view, mat_view, mat_zero, seq_add, seq_dot, seq_hadamard,
    seq_sub, seq_zero, vec_add, vec_hadamard, vec_mat_dot, vec_sub, vec_zero, Matrix,
};

verus! {

// ---------------------------------------------------------------------------
// Beaver multiplication triplets. A triplet share holds one party's additive
// shares (a, b, ab) whose underlying secrets satisfy ab = a * b for the
// product in question. Each protocol run must consume a fresh triplet.
//
// The constructors provided here produce the all-zeros triplet. For linear
// layers this keeps the protocol exact, but it is NOT secure: with a zero
// mask the exchanged operands reveal the shares. Any deployment that needs
// secrecy must substitute a source of real preprocessed triplets.
// ---------------------------------------------------------------------------

/// One party's share of a Beaver triplet for the Hadamard (componentwise)
/// product of two vectors.
#[derive(Debug)]
pub struct MultiplicationTripletShare {
    pub a_share: Vec<Com>,
    pub b_share: Vec<Com>,
    pub ab_share: Vec<Com>,
}

/// One party's share of a Beaver triplet for the dot product of a vector
/// (length K) with a K-by-M matrix.
#[derive(Debug)]
pub struct DotProductTripletShare {
    pub a_share: Vec<Com>,
    pub b_share: Matrix,
    pub ab_share: Vec<Com>,
}

/// What one party outputs from the Hadamard protocol, given its triplet
/// share and both parties' masked-operand messages: a*f + e*b + ab, plus
/// e*f for the designated party, where e and f are the reconstructed masked
/// operands.
pub open spec fn spec_hadamard_finish(
    party: bool,
    a: Seq<Com>,
    b: Seq<Com>,
    ab: Seq<Com>,
    ours_e: Seq<Com>,
    ours_f: Seq<Com>,
    theirs_e: Seq<Com>,
    theirs_f: Seq<Com>,
) -> Seq<Com> {
    let e = seq_add(ours_e, theirs_e);
    let f = seq_add(ours_f, theirs_f);
    let base = seq_add(seq_add(seq_hadamard(a, f), seq_hadamard(e, b)), ab);
    if party {
        seq_add(seq_hadamard(e, f), base)
    } else {
        base
    }
}

/// What one party outputs from the dot-product protocol: a.f + e.b + ab,
/// plus e.f for the designated party, with . the vector-matrix dot product.
pub open spec fn spec_dot_finish(
    party: bool,
    a: Seq<Com>,
    b: Seq<Seq<Com>>,
    ab: Seq<Com>,
    ours_e: Seq<Com>,
    ours_f: Seq<Seq<Com>>,
    theirs_e: Seq<Com>,
    theirs_f: Seq<Seq<Com>>,
    cols: nat,
) -> Seq<Com> {
    let e = seq_add(ours_e, theirs_e);
    let f = mat_add_view(ours_f, theirs_f);
    let base = seq_add(seq_add(seq_dot(a, f, cols), seq_dot(e, b, cols)), ab);
    if party {
        seq_add(seq_dot(e, f, cols), base)
    } else {
        base
    }
}

impl MultiplicationTripletShare {
    pub open spec fn wf(&self, n: nat) -> bool {
        &&& self.a_share@.len() == n
        &&& self.b_share@.len() == n
        &&& self.ab_share@.len() == n
    }

    pub open spec fn is_zero(&self) -> bool {
        &&& self.a_share@ == seq_zero(self.a_share@.len())
        &&& self.b_share@ == seq_zero(self.b_share@.len())
        &&& self.ab_share@ == seq_zero(self.ab_share@.len())
    }

    /// The all-zeros triplet (see the module note: exact but insecure).
    pub fn new(n: usize) -> (t: Self)
        ensures
            t.wf(n as nat),
            t.is_zero(),
    {
        MultiplicationTripletShare {
            a_share: vec_zero(n),
            b_share: vec_zero(n),
            ab_share: vec_zero(n),
        }
    }

    /// Masks the two operand shares for the exchange: e = x - a, f = y - b.
    pub fn hadamard_message(&self, x_share: &Vec<Com>, y_share: &Vec<Com>) -> (m:
        HadamardProductInteraction)
        requires
            self.wf(x_share@.len()),
            y_share@.len() == x_share@.len(),
        ensures
            m.e_share@ == seq_sub(x_share@, self.a_share@),
            m.f_share@ == seq_sub(y_share@, self.b_share@),
    {
        HadamardProductInteraction {
            e_share: vec_sub(x_share, &self.a_share),
            f_share: vec_sub(y_share, &self.b_share),
        }
    }

    /// Combines both parties' masked operands into this party's output
    /// share of the Hadamard product.
    pub fn hadamard_finish(
        &self,
        party: bool,
        ours: &HadamardProductInteraction,
        theirs: &HadamardProductInteraction,
    ) -> (r: Vec<Com>)
        requires
            self.wf(ours.e_share@.len()),
            ours.f_share@.len() == ours.e_share@.len(),
            theirs.e_share@.len() == ours.e_share@.len(),
            theirs.f_share@.len() == ours.e_share@.len(),
        ensures
            r@ == spec_hadamard_finish(
                party,
                self.a_share@,
                self.b_share@,
                self.ab_share@,
                ours.e_share@,
                ours.f_share@,
                theirs.e_share@,
                theirs.f_share@,
            ),
            r@.len() == ours.e_share@.len(),
    {
        let e = vec_add(&ours.e_share, &theirs.e_share);
        let f = vec_add(&ours.f_share, &theirs.f_share);
        let af = vec_hadamard(&self.a_share, &f);
        let eb = vec_hadamard(&e, &self.b_share);
        let base = vec_add(&vec_add(&af, &eb), &self.ab_share);
        if party {
            let ef = vec_hadamard(&e, &f);
            vec_add(&ef, &base)
        } else {
            base
        }
    }
}

impl DotProductTripletShare {
    pub open spec fn wf(&self, k: nat, m: nat) -> bool {
        &&& self.a_share@.len() == k
        &&& mat_view(&self.b_share).len() == k
        &&& is_rect(mat_view(&self.b_share), m)
        &&& self.ab_share@.len() == m
    }

    pub open spec fn is_zero(&self) -> bool {
        &&& self.a_share@ == seq_zero(self.a_share@.len())
        &&& mat_view(&self.b_share) == mat_zero(
            mat_view(&self.b_share).len(),
            self.ab_share@.len(),
        )
        &&& self.ab_share@ == seq_zero(self.ab_share@.len())
    }

    /// The all-zeros triplet for a K-by-M product (exact but insecure).
    pub fn new(k: usize, m: usize) -> (t: Self)
        ensures
            t.wf(k as nat, m as nat),
            t.is_zero(),
    {
        let mut rows: Vec<Vec<Com>> = Vec::new();
        let mut i: usize = 0;
        while i < k
            invariant
                0 <= i <= k,
                rows@.len() == i,
                forall|q: int| 0 <= q < i ==> #[trigger] rows@[q]@ == seq_zero(m as nat),
            decreases k - i,
        {
            rows.push(vec_zero(m));
            i += 1;
        }
        let b_share = Matrix { rows };
        proof {
            assert(mat_view(&b_share) =~= mat_zero(k as nat, m as nat));
        }
        DotProductTripletShare { a_share: vec_zero(k), b_share, ab_share: vec_zero(m) }
    }

    /// Masks the two operand shares for the exchange: e = x - a (vector),
    /// f = y - b (matrix).
    pub fn dot_message(&self, x_share: &Vec<Com>, y_share: &Matrix, cols: usize) -> (r:
        DotProductInteraction)
        requires
            self.wf(x_share@.len(), cols as nat),
            mat_view(y_share).len() == x_share@.len(),
            is_rect(mat_view(y_share), cols as nat),
        ensures
            r.e_share@ == seq_sub(x_share@, self.a_share@),
            mat_view(&r.f_share).len() == x_share@.len(),
            forall|i: int|
                0 <= i < x_share@.len() ==> #[trigger] mat_view(&r.f_share)[i] == seq_sub(
                    mat_view(y_share)[i],
                    mat_view(&self.b_share)[i],
                ),
    {
        let e_share = vec_sub(x_share, &self.a_share);
        let f_share = crate::tensor::mat_sub(y_share, &self.b_share);
        DotProductInteraction { e_share, f_share }
    }

    /// Combines both parties' masked operands into this party's output
    /// share of the dot product.
    pub fn dot_finish(
        &self,
        party: bool,
        ours: &DotProductInteraction,
        theirs: &DotProductInteraction,
        cols: usize,
    ) -> (r: Vec<Com>)
        requires
            self.wf(ours.e_share@.len(), cols as nat),
            theirs.e_share@.len() == ours.e_share@.len(),
            mat_view(&ours.f_share).len() == ours.e_share@.len(),
            mat_view(&theirs.f_share).len() == ours.e_share@.len(),
            is_rect(mat_view(&ours.f_share), cols as nat),
            is_rect(mat_view(&theirs.f_share), cols as nat),
        ensures
            r@ == spec_dot_finish(
                party,
                self.a_share@,
                mat_view(&self.b_share),
                self.ab_share@,
                ours.e_share@,
                mat_view(&ours.f_share),
                theirs.e_share@,
                mat_view(&theirs.f_share),
                cols as nat,
            ),
            r@.len() == cols,
    {
        let e = vec_add(&ours.e_share, &theirs.e_share);
        let f = mat_add(&ours.f_share, &theirs.f_share);
        proof {
            assert(mat_view(&f) =~= mat_add_view(mat_view(&ours.f_share), mat_view(&theirs.f_share)));
            assert forall|i: int| 0 <= i < mat_view(&f).len() implies #[trigger] mat_view(
                &f,
            )[i].len() == cols by {
                assert(mat_view(&ours.f_share)[i].len() == cols);
            }
        }
        let af = vec_mat_dot(&self.a_share, &f, cols);
        let eb = vec_mat_dot(&e, &self.b_share, cols);
        let base = vec_add(&vec_add(&af, &eb), &self.ab_share);
        if party {
            let ef = vec_mat_dot(&e, &f, cols);
            vec_add(&ef, &base)
        } else {
            base
        }
    }
}

// ---------------------------------------------------------------------------
// Correctness of the protocols under the all-zeros triplet.
// ---------------------------------------------------------------------------

/// A zero dot-product accumulation: if the vector is zero on the summed
/// range, the partial dot product is zero.
proof fn lemma_dot_entry_zero_left(x: Seq<Com>, w: Seq<Seq<Com>>, j: int, k: nat)
    requires
        forall|i: int| 0 <= i < k ==> x[i] == spec_zero(),
    ensures
        dot_entry(x, w, j, k) == spec_zero(),
    decreases k,
{
    if k > 0 {
        lemma_dot_entry_zero_left(x, w, j, (k - 1) as nat);
        lemma_mul_zero(w[k - 1][j]);
        lemma_add_zero(spec_zero());
    }
}

/// If the matrix column is zero on the summed range, the partial dot
/// product is zero.
proof fn lemma_dot_entry_zero_right(x: Seq<Com>, w: Seq<Seq<Com>>, j: int, k: nat)
    requires
        forall|i: int| 0 <= i < k ==> #[trigger] w[i][j] == spec_zero(),
    ensures
        dot_entry(x, w, j, k) == spec_zero(),
    decreases k,
{
    if k > 0 {
        lemma_dot_entry_zero_right(x, w, j, (k - 1) as nat);
        lemma_mul_zero(x[k - 1]);
        lemma_add_zero(spec_zero());
    }
}

/// Correctness of the Hadamard protocol with the all-zeros triplet: the two
/// parties' output shares sum, componentwise and wrapping, to the Hadamard
/// product of the two reconstructed operands. The masked operands exchanged
/// under a zero mask are the operand shares themselves.
pub proof fn lemma_hadamard_zero_triplet(e0: Seq<Com>, f0: Seq<Com>, e1: Seq<Com>, f1: Seq<Com>, n: nat)
    requires
        e0.len() == n,
        f0.len() == n,
        e1.len() == n,
        f1.len() == n,
    ensures
        seq_add(
            spec_hadamard_finish(true, seq_zero(n), seq_zero(n), seq_zero(n), e0, f0, e1, f1),
            spec_hadamard_finish(false, seq_zero(n), seq_zero(n), seq_zero(n), e1, f1, e0, f0),
        ) == seq_hadamard(seq_add(e0, e1), seq_add(f0, f1)),
{
    let e = seq_add(e0, e1);
    let f = seq_add(f0, f1);
    let out_t = spec_hadamard_finish(true, seq_zero(n), seq_zero(n), seq_zero(n), e0, f0, e1, f1);
    let out_f = spec_hadamard_finish(false, seq_zero(n), seq_zero(n), seq_zero(n), e1, f1, e0, f0);
    assert(seq_add(e1, e0) =~= e);
    assert(seq_add(f1, f0) =~= f);
    assert forall|i: int| 0 <= i < n implies seq_add(out_t, out_f)[i] == seq_hadamard(e, f)[i] by {
        let ei = e[i];
        let fi = f[i];
        lemma_mul_zero(ei);
        lemma_mul_zero(fi);
        lemma_add_zero(spec_zero());
        lemma_add_zero(crate::com::spec_mul(ei, fi));
        assert(out_f[i] == spec_zero());
        assert(out_t[i] == crate::com::spec_mul(ei, fi));
    }
    assert(seq_add(out_t, out_f) =~= seq_hadamard(e, f));
}

/// Correctness of the dot-product protocol with the all-zeros triplet: the
/// two parties' output shares sum to the dot product of the reconstructed
/// vector and matrix.
pub proof fn lemma_dot_zero_triplet(
    e0: Seq<Com>,
    f0: Seq<Seq<Com>>,
    e1: Seq<Com>,
    f1: Seq<Seq<Com>>,
    k: nat,
    m: nat,
)
    requires
        e0.len() == k,
        e1.len() == k,
        f0.len() == k,
        f1.len() == k,
        is_rect(f0, m),
        is_rect(f1, m),
    ensures
        seq_add(
            spec_dot_finish(true, seq_zero(k), mat_zero(k, m), seq_zero(m), e0, f0, e1, f1, m),
            spec_dot_finish(false, seq_zero(k), mat_zero(k, m), seq_zero(m), e1, f1, e0, f0, m),
        ) == seq_dot(seq_add(e0, e1), mat_add_view(f0, f1), m),
{
    let e = seq_add(e0, e1);
    let f = mat_add_view(f0, f1);
    let out_t = spec_dot_finish(true, seq_zero(k), mat_zero(k, m), seq_zero(m), e0, f0, e1, f1, m);
    let out_f = spec_dot_finish(false, seq_zero(k), mat_zero(k, m), seq_zero(m), e1, f1, e0, f0, m);
    assert(seq_add(e1, e0) =~= e);
    assert forall|i: int| 0 <= i < k implies #[trigger] mat_add_view(f1, f0)[i] == f[i] by {
        assert(seq_add(f1[i], f0[i]) =~= seq_add(f0[i], f1[i]));
    }
    assert(mat_add_view(f1, f0) =~= f);
    assert forall|j: int| 0 <= j < m implies seq_add(out_t, out_f)[j] == seq_dot(e, f, m)[j] by {
        lemma_dot_entry_zero_left(seq_zero(k), f, j, k);
        lemma_dot_entry_zero_right(e, mat_zero(k, m), j, k);
        lemma_add_zero(spec_zero());
        lemma_add_zero(dot_entry(e, f, j, k));
        assert(out_f[j] == spec_zero());
        assert(out_t[j] == dot_entry(e, f, j, k));
    }
    assert(seq_add(out_t, out_f) =~= seq_dot(e, f, m));
}

} // verus!
