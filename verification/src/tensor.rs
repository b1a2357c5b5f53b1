use vstd::prelude::*;

use crate::com::{spec_add, spec_b2a, spec_mul, spec_sub, spec_zero, Com};

verus! {

// ---------------------------------------------------------------------------
// Specification-level tensor operations, componentwise over sequences.
// ---------------------------------------------------------------------------

/// Componentwise wrapping sum.
pub open spec fn seq_add(a: Seq<Com>, b: Seq<Com>) -> Seq<Com> {
    Seq::new(a.len(), |i: int| spec_add(a[i], b[i]))
}

/// Componentwise wrapping difference.
pub open spec fn seq_sub(a: Seq<Com>, b: Seq<Com>) -> Seq<Com> {
    Seq::new(a.len(), |i: int| spec_sub(a[i], b[i]))
}

/// Componentwise fixed-point (Hadamard) product.
pub open spec fn seq_hadamard(a: Seq<Com>, b: Seq<Com>) -> Seq<Com> {
    Seq::new(a.len(), |i: int| spec_mul(a[i], b[i]))
}

/// Componentwise exclusive or of bit tensors.
pub open spec fn seq_xor(a: Seq<bool>, b: Seq<bool>) -> Seq<bool> {
    Seq::new(a.len(), |i: int| a[i] != b[i])
}

/// Componentwise arithmetic image of a bit tensor.
pub open spec fn seq_b2a(a: Seq<bool>) -> Seq<Com> {
    Seq::new(a.len(), |i: int| spec_b2a(a[i]))
}

/// The all-zeros tensor.
pub open spec fn seq_zero(n: nat) -> Seq<Com> {
    Seq::new(n, |i: int| spec_zero())
}

/// A row-major matrix as a sequence of equal-length rows.
pub open spec fn is_rect(m: Seq<Seq<Com>>, cols: nat) -> bool {
    forall|i: int| 0 <= i < m.len() ==> #[trigger] m[i].len() == cols
}

/// Partial dot product of a vector with column `j` of a matrix, over the
/// first `k` coordinates: the wrapping sum of the fixed-point products.
pub open spec fn dot_entry(x: Seq<Com>, w: Seq<Seq<Com>>, j: int, k: nat) -> Com
    decreases k,
{
    if k == 0 {
        spec_zero()
    } else {
        spec_add(dot_entry(x, w, j, (k - 1) as nat), spec_mul(x[k - 1], w[k - 1][j]))
    }
}

/// The vector-matrix dot product: entry `j` is the dot product of `x` with
/// column `j` of `w`.
pub open spec fn seq_dot(x: Seq<Com>, w: Seq<Seq<Com>>, cols: nat) -> Seq<Com> {
    Seq::new(cols, |j: int| dot_entry(x, w, j, x.len()))
}

/// Componentwise wrapping sum of two matrices.
pub open spec fn mat_add_view(a: Seq<Seq<Com>>, b: Seq<Seq<Com>>) -> Seq<Seq<Com>> {
    Seq::new(a.len(), |i: int| seq_add(a[i], b[i]))
}

/// The all-zeros matrix.
pub open spec fn mat_zero(rows: nat, cols: nat) -> Seq<Seq<Com>> {
    Seq::new(rows, |i: int| seq_zero(cols))
}

// ---------------------------------------------------------------------------
// The matrix type.
// ---------------------------------------------------------------------------

/// A row-major matrix of scalars.
#[derive(Debug)]
pub struct Matrix {
    pub rows: Vec<Vec<Com>>,
}

/// The mathematical view of a matrix: its rows as sequences.
pub open spec fn mat_view(m: &Matrix) -> Seq<Seq<Com>> {
    Seq::new(m.rows@.len(), |i: int| m.rows@[i]@)
}

impl Matrix {
    /// Number of rows.
    pub fn nrows(&self) -> (r: usize)
        ensures
            r == mat_view(self).len(),
    {
        self.rows.len()
    }

    /// Whether every row has exactly `cols` entries.
    pub fn is_rectangular(&self, cols: usize) -> (r: bool)
        ensures
            r == is_rect(mat_view(self), cols as nat),
    {
        let n = self.rows.len();
        let mut i: usize = 0;
        while i < n
            invariant
                n == self.rows@.len(),
                0 <= i <= n,
                forall|k: int| 0 <= k < i ==> #[trigger] mat_view(self)[k].len() == cols,
            decreases n - i,
        {
            if self.rows[i].len() != cols {
                assert(mat_view(self)[i as int].len() != cols);
                return false;
            }
            assert(mat_view(self)[i as int].len() == cols);
            i += 1;
        }
        true
    }
}

// ---------------------------------------------------------------------------
// Executable tensor operations.
// ---------------------------------------------------------------------------

pub fn vec_zero(n: usize) -> (r: Vec<Com>)
    ensures
        r@ == seq_zero(n as nat),
{
    let mut r: Vec<Com> = Vec::new();
    let mut i: usize = 0;
    while i < n
        invariant
            0 <= i <= n,
            r@.len() == i,
            forall|k: int| 0 <= k < i ==> r@[k] == spec_zero(),
        decreases n - i,
    {
        r.push(Com { raw: 0 });
        i += 1;
    }
    assert(r@ =~= seq_zero(n as nat));
    r
}

pub fn vec_add(a: &Vec<Com>, b: &Vec<Com>) -> (r: Vec<Com>)
    requires
        a@.len() == b@.len(),
    ensures
        r@ == seq_add(a@, b@),
{
    let n = a.len();
    let mut r: Vec<Com> = Vec::new();
    let mut i: usize = 0;
    while i < n
        invariant
            n == a@.len() == b@.len(),
            0 <= i <= n,
            r@.len() == i,
            forall|k: int| 0 <= k < i ==> r@[k] == spec_add(a@[k], b@[k]),
        decreases n - i,
    {
        r.push(crate::com::com_add(a[i], b[i]));
        i += 1;
    }
    assert(r@ =~= seq_add(a@, b@));
    r
}

pub fn vec_sub(a: &Vec<Com>, b: &Vec<Com>) -> (r: Vec<Com>)
    requires
        a@.len() == b@.len(),
    ensures
        r@ == seq_sub(a@, b@),
{
    let n = a.len();
    let mut r: Vec<Com> = Vec::new();
    let mut i: usize = 0;
    while i < n
        invariant
            n == a@.len() == b@.len(),
            0 <= i <= n,
            r@.len() == i,
            forall|k: int| 0 <= k < i ==> r@[k] == spec_sub(a@[k], b@[k]),
        decreases n - i,
    {
        r.push(crate::com::com_sub(a[i], b[i]));
        i += 1;
    }
    assert(r@ =~= seq_sub(a@, b@));
    r
}

pub fn vec_hadamard(a: &Vec<Com>, b: &Vec<Com>) -> (r: Vec<Com>)
    requires
        a@.len() == b@.len(),
    ensures
        r@ == seq_hadamard(a@, b@),
{
    let n = a.len();
    let mut r: Vec<Com> = Vec::new();
    let mut i: usize = 0;
    while i < n
        invariant
            n == a@.len() == b@.len(),
            0 <= i <= n,
            r@.len() == i,
            forall|k: int| 0 <= k < i ==> r@[k] == spec_mul(a@[k], b@[k]),
        decreases n - i,
    {
        r.push(crate::com::com_mul(a[i], b[i]));
        i += 1;
    }
    assert(r@ =~= seq_hadamard(a@, b@));
    r
}

pub fn vec_xor(a: &Vec<bool>, b: &Vec<bool>) -> (r: Vec<bool>)
    requires
        a@.len() == b@.len(),
    ensures
        r@ == seq_xor(a@, b@),
{
    let n = a.len();
    let mut r: Vec<bool> = Vec::new();
    let mut i: usize = 0;
    while i < n
        invariant
            n == a@.len() == b@.len(),
            0 <= i <= n,
            r@.len() == i,
            forall|k: int| 0 <= k < i ==> r@[k] == (a@[k] != b@[k]),
        decreases n - i,
    {
        r.push(a[i] != b[i]);
        i += 1;
    }
    assert(r@ =~= seq_xor(a@, b@));
    r
}

/// The componentwise arithmetic image of a bit tensor.
pub fn vec_b2a(a: &Vec<bool>) -> (r: Vec<Com>)
    ensures
        r@ == seq_b2a(a@),
{
    let n = a.len();
    let mut r: Vec<Com> = Vec::new();
    let mut i: usize = 0;
    while i < n
        invariant
            n == a@.len(),
            0 <= i <= n,
            r@.len() == i,
            forall|k: int| 0 <= k < i ==> r@[k] == spec_b2a(a@[k]),
        decreases n - i,
    {
        r.push(crate::com::com_from_bit(a[i]));
        i += 1;
    }
    assert(r@ =~= seq_b2a(a@));
    r
}

/// Componentwise flooring division of the signed raw integers by 2^8.
pub fn vec_div256(a: &Vec<Com>) -> (r: Vec<Com>)
    ensures
        r@ == Seq::new(a@.len(), |i: int| crate::com::spec_div256(a@[i])),
{
    let n = a.len();
    let mut r: Vec<Com> = Vec::new();
    let mut i: usize = 0;
    while i < n
        invariant
            n == a@.len(),
            0 <= i <= n,
            r@.len() == i,
            forall|k: int| 0 <= k < i ==> r@[k] == crate::com::spec_div256(a@[k]),
        decreases n - i,
    {
        r.push(crate::com::com_div256(a[i]));
        i += 1;
    }
    assert(r@ =~= Seq::new(a@.len(), |i: int| crate::com::spec_div256(a@[i])));
    r
}

/// An element-for-element copy of a scalar tensor.
pub fn vec_copy_com(a: &Vec<Com>) -> (r: Vec<Com>)
    ensures
        r@ == a@,
{
    let n = a.len();
    let mut r: Vec<Com> = Vec::new();
    let mut i: usize = 0;
    while i < n
        invariant
            n == a@.len(),
            0 <= i <= n,
            r@.len() == i,
            forall|k: int| 0 <= k < i ==> r@[k] == a@[k],
        decreases n - i,
    {
        r.push(a[i]);
        i += 1;
    }
    assert(r@ =~= a@);
    r
}

/// An element-for-element copy of a bit tensor.
pub fn vec_copy_bool(a: &Vec<bool>) -> (r: Vec<bool>)
    ensures
        r@ == a@,
{
    let n = a.len();
    let mut r: Vec<bool> = Vec::new();
    let mut i: usize = 0;
    while i < n
        invariant
            n == a@.len(),
            0 <= i <= n,
            r@.len() == i,
            forall|k: int| 0 <= k < i ==> r@[k] == a@[k],
        decreases n - i,
    {
        r.push(a[i]);
        i += 1;
    }
    assert(r@ =~= a@);
    r
}

/// Vector-matrix dot product: `x` of length K against a K-by-`cols` matrix.
pub fn vec_mat_dot(x: &Vec<Com>, w: &Matrix, cols: usize) -> (r: Vec<Com>)
    requires
        is_rect(mat_view(w), cols as nat),
        x@.len() == mat_view(w).len(),
    ensures
        r@ == seq_dot(x@, mat_view(w), cols as nat),
{
    let k_total = x.len();
    let mut r: Vec<Com> = Vec::new();
    let mut j: usize = 0;
    while j < cols
        invariant
            k_total == x@.len(),
            x@.len() == mat_view(w).len(),
            is_rect(mat_view(w), cols as nat),
            0 <= j <= cols,
            r@.len() == j,
            forall|jj: int| 0 <= jj < j ==> r@[jj] == dot_entry(x@, mat_view(w), jj, x@.len()),
        decreases cols - j,
    {
        let mut acc = Com { raw: 0 };
        let mut k: usize = 0;
        assert(acc == dot_entry(x@, mat_view(w), j as int, 0));
        while k < k_total
            invariant
                k_total == x@.len(),
                x@.len() == mat_view(w).len(),
                is_rect(mat_view(w), cols as nat),
                0 <= j < cols,
                0 <= k <= k_total,
                acc == dot_entry(x@, mat_view(w), j as int, k as nat),
            decreases k_total - k,
        {
            assert(mat_view(w)[k as int].len() == cols);
            assert(w.rows@[k as int]@ == mat_view(w)[k as int]);
            let prod = crate::com::com_mul(x[k], w.rows[k][j]);
            acc = crate::com::com_add(acc, prod);
            k += 1;
        }
        r.push(acc);
        j += 1;
    }
    assert(r@ =~= seq_dot(x@, mat_view(w), cols as nat));
    r
}

/// Componentwise wrapping sum of two matrices of the same shape.
pub fn mat_add(a: &Matrix, b: &Matrix) -> (r: Matrix)
    requires
        mat_view(a).len() == mat_view(b).len(),
        forall|i: int|
            0 <= i < mat_view(a).len() ==> #[trigger] mat_view(a)[i].len() == mat_view(b)[i].len(),
    ensures
        mat_view(&r).len() == mat_view(a).len(),
        forall|i: int|
            0 <= i < mat_view(a).len() ==> #[trigger] mat_view(&r)[i] == seq_add(
                mat_view(a)[i],
                mat_view(b)[i],
            ),
{
    let n = a.rows.len();
    let mut rows: Vec<Vec<Com>> = Vec::new();
    let mut i: usize = 0;
    while i < n
        invariant
            n == mat_view(a).len() == mat_view(b).len(),
            forall|k: int|
                0 <= k < mat_view(a).len() ==> #[trigger] mat_view(a)[k].len() == mat_view(
                    b,
                )[k].len(),
            0 <= i <= n,
            rows@.len() == i,
            forall|k: int|
                0 <= k < i ==> #[trigger] rows@[k]@ == seq_add(mat_view(a)[k], mat_view(b)[k]),
        decreases n - i,
    {
        assert(mat_view(a)[i as int] == a.rows@[i as int]@);
        let row = vec_add(&a.rows[i], &b.rows[i]);
        rows.push(row);
        i += 1;
    }
    let r = Matrix { rows };
    assert(forall|k: int| 0 <= k < n ==> #[trigger] mat_view(&r)[k] == r.rows@[k]@);
    r
}

/// Componentwise wrapping difference of two matrices of the same shape.
pub fn mat_sub(a: &Matrix, b: &Matrix) -> (r: Matrix)
    requires
        mat_view(a).len() == mat_view(b).len(),
        forall|i: int|
            0 <= i < mat_view(a).len() ==> #[trigger] mat_view(a)[i].len() == mat_view(b)[i].len(),
    ensures
        mat_view(&r).len() == mat_view(a).len(),
        forall|i: int|
            0 <= i < mat_view(a).len() ==> #[trigger] mat_view(&r)[i] == seq_sub(
                mat_view(a)[i],
                mat_view(b)[i],
            ),
{
    let n = a.rows.len();
    let mut rows: Vec<Vec<Com>> = Vec::new();
    let mut i: usize = 0;
    while i < n
        invariant
            n == mat_view(a).len() == mat_view(b).len(),
            forall|k: int|
                0 <= k < mat_view(a).len() ==> #[trigger] mat_view(a)[k].len() == mat_view(
                    b,
                )[k].len(),
            0 <= i <= n,
            rows@.len() == i,
            forall|k: int|
                0 <= k < i ==> #[trigger] rows@[k]@ == seq_sub(mat_view(a)[k], mat_view(b)[k]),
        decreases n - i,
    {
        assert(mat_view(a)[i as int] == a.rows@[i as int]@);
        let row = vec_sub(&a.rows[i], &b.rows[i]);
        rows.push(row);
        i += 1;
    }
    let r = Matrix { rows };
    assert(forall|k: int| 0 <= k < n ==> #[trigger] mat_view(&r)[k] == r.rows@[k]@);
    r
}

} // verus!
