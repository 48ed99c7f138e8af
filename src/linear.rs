use crate::scalar::{all_fit, fits, scalar_ok, scalar_op, zip_ok, zip_op, Op, Scalar};
use vstd::prelude::*;

verus! {

/// `m[0][i] * v[0] + ... + m[k-1][i] * v[k-1]`, summed in that order: row `i`
/// of the columns `m` weighted by `v`, over the first `k` columns.
pub open spec fn lin_comb(m: Seq<Seq<int>>, v: Seq<int>, i: int, k: nat) -> int
    decreases k,
{
    if k == 0 {
        0
    } else {
        lin_comb(m, v, i, (k - 1) as nat) + m[k - 1][i] * v[k - 1]
    }
}

/// Every product and every partial sum of `lin_comb(m, v, i, k)` fits `T`.
pub open spec fn lin_comb_ok<T: Scalar>(m: Seq<Seq<int>>, v: Seq<int>, i: int, k: nat) -> bool
    decreases k,
{
    if k == 0 {
        true
    } else {
        &&& lin_comb_ok::<T>(m, v, i, (k - 1) as nat)
        &&& fits::<T>(m[k - 1][i] * v[k - 1])
        &&& fits::<T>(lin_comb(m, v, i, k))
    }
}

/// The matrix with columns `m` applied to the vector `v`.
pub open spec fn mat_vec(m: Seq<Seq<int>>, v: Seq<int>) -> Seq<int> {
    Seq::new(m.len(), |i: int| lin_comb(m, v, i, m.len()))
}

/// `mat_vec(m, v)` computes without overflow in `T`.
pub open spec fn mat_vec_ok<T: Scalar>(m: Seq<Seq<int>>, v: Seq<int>) -> bool {
    forall|i: int| 0 <= i < m.len() ==> #[trigger] lin_comb_ok::<T>(m, v, i, m.len())
}

/// The product of two matrices given by columns: column `j` of the result
/// is `a` applied to column `j` of `b`.
pub open spec fn mat_mul(a: Seq<Seq<int>>, b: Seq<Seq<int>>) -> Seq<Seq<int>> {
    Seq::new(b.len(), |j: int| mat_vec(a, b[j]))
}

/// `mat_mul(a, b)` computes without overflow in `T`.
pub open spec fn mat_mul_ok<T: Scalar>(a: Seq<Seq<int>>, b: Seq<Seq<int>>) -> bool {
    forall|j: int| 0 <= j < b.len() ==> #[trigger] mat_vec_ok::<T>(a, b[j])
}

/// The identity matrix of side `n`, by columns.
pub open spec fn identity(n: nat) -> Seq<Seq<int>> {
    Seq::new(n, |j: int| Seq::new(n, |i: int| if i == j { 1int } else { 0int }))
}

/// The matrix of side `n` with every entry `v`.
pub open spec fn filled(n: nat, v: int) -> Seq<Seq<int>> {
    Seq::new(n, |j: int| Seq::new(n, |i: int| v))
}

/// `op` on matching entries of two matrices given by columns.
pub open spec fn zip_cols(op: Op, a: Seq<Seq<int>>, b: Seq<Seq<int>>) -> Seq<Seq<int>> {
    Seq::new(a.len(), |j: int| zip_op(op, a[j], b[j]))
}

/// `op` with the scalar `s` on every entry of a matrix given by columns.
pub open spec fn scalar_cols(op: Op, a: Seq<Seq<int>>, s: int) -> Seq<Seq<int>> {
    Seq::new(a.len(), |j: int| scalar_op(op, a[j], s))
}

/// `zip_cols(op, a, b)` is defined for `T` on every entry.
pub open spec fn zip_cols_ok<T: Scalar>(op: Op, a: Seq<Seq<int>>, b: Seq<Seq<int>>) -> bool {
    forall|j: int| 0 <= j < a.len() ==> #[trigger] zip_ok::<T>(op, a[j], b[j])
}

/// `scalar_cols(op, a, s)` is defined for `T` on every entry.
pub open spec fn scalar_cols_ok<T: Scalar>(op: Op, a: Seq<Seq<int>>, s: int) -> bool {
    forall|j: int| 0 <= j < a.len() ==> #[trigger] scalar_ok::<T>(op, a[j], s)
}

/// The 2-D affine translation by `(px, py)`, as columns, moves the point
/// `(x, y, 1)` to `(x + px, y + py, 1)`.
pub proof fn lemma_translation_moves_points(px: int, py: int, x: int, y: int)
    ensures
        mat_vec(
            seq![seq![1int, 0int, 0int], seq![0int, 1int, 0int], seq![px, py, 1int]],
            seq![x, y, 1int],
        ) == seq![x + px, y + py, 1int],
{
    reveal_with_fuel(lin_comb, 4);
    let m = seq![seq![1int, 0int, 0int], seq![0int, 1int, 0int], seq![px, py, 1int]];
    let v = seq![x, y, 1int];
    assert(m[0][0] == 1 && m[1][0] == 0 && m[2][0] == px);
    assert(m[0][1] == 0 && m[1][1] == 1 && m[2][1] == py);
    assert(m[0][2] == 0 && m[1][2] == 0 && m[2][2] == 1);
    assert(v[0] == x && v[1] == y && v[2] == 1);
    assert(m[0][0] * v[0] == x && m[1][0] * v[1] == 0 && m[2][0] * v[2] == px) by (nonlinear_arith)
        requires
            m[0][0] == 1 && m[1][0] == 0 && m[2][0] == px,
            v[0] == x && v[1] == y && v[2] == 1,
    ;
    assert(m[0][1] * v[0] == 0 && m[1][1] * v[1] == y && m[2][1] * v[2] == py) by (nonlinear_arith)
        requires
            m[0][1] == 0 && m[1][1] == 1 && m[2][1] == py,
            v[0] == x && v[1] == y && v[2] == 1,
    ;
    assert(m[0][2] * v[0] == 0 && m[1][2] * v[1] == 0 && m[2][2] * v[2] == 1) by (nonlinear_arith)
        requires
            m[0][2] == 0 && m[1][2] == 0 && m[2][2] == 1,
            v[2] == 1,
    ;
    assert(lin_comb(m, v, 0, 1) == x);
    assert(lin_comb(m, v, 0, 2) == x);
    assert(lin_comb(m, v, 0, 3) == x + px);
    assert(lin_comb(m, v, 1, 1) == 0);
    assert(lin_comb(m, v, 1, 2) == y);
    assert(lin_comb(m, v, 1, 3) == y + py);
    assert(lin_comb(m, v, 2, 3) == 1);
    assert(mat_vec(m, v) =~= seq![x + px, y + py, 1int]);
}

/// `acc + a * b`, exactly.
pub(crate) fn mul_add<T: Scalar>(acc: T, a: T, b: T) -> (r: T)
    requires
        fits::<T>(a.val() * b.val()),
        fits::<T>(acc.val() + a.val() * b.val()),
    ensures
        r.val() == acc.val() + a.val() * b.val(),
{
    let p = T::calc(Op::Mul, a, b);
    T::calc(Op::Add, acc, p)
}

proof fn lemma_identity_comb<T: Scalar>(v: Seq<int>, i: int, k: nat)
    requires
        all_fit::<T>(v),
        0 <= i < v.len(),
        k <= v.len(),
    ensures
        lin_comb(identity(v.len()), v, i, k) == (if i < k { v[i] } else { 0 }),
        lin_comb_ok::<T>(identity(v.len()), v, i, k),
    decreases k,
{
    T::lemma_bounds();
    if k > 0 {
        lemma_identity_comb::<T>(v, i, (k - 1) as nat);
        let m = identity(v.len());
        assert(m[k - 1][i] == (if i == k - 1 { 1int } else { 0int }));
        assert(fits::<T>(v[k - 1]));
        assert(fits::<T>(v[i]));
        if i == k - 1 {
            assert(m[k - 1][i] * v[k - 1] == v[k - 1]);
        } else {
            assert(m[k - 1][i] * v[k - 1] == 0);
        }
    }
}

/// The identity leaves every vector unchanged, and computing that product
/// never overflows.
pub proof fn lemma_identity_mat_vec<T: Scalar>(v: Seq<int>)
    requires
        all_fit::<T>(v),
    ensures
        mat_vec_ok::<T>(identity(v.len()), v),
        mat_vec(identity(v.len()), v) == v,
{
    let m = identity(v.len());
    assert(m.len() == v.len());
    assert forall|i: int| 0 <= i < v.len() implies #[trigger] lin_comb_ok::<T>(
        m,
        v,
        i,
        v.len(),
    ) by {
        lemma_identity_comb::<T>(v, i, v.len());
    }
    assert forall|i: int| 0 <= i < v.len() implies #[trigger] mat_vec(m, v)[i] == v[i] by {
        lemma_identity_comb::<T>(v, i, v.len());
    }
    assert(mat_vec(m, v) =~= v);
}

/// The identity times itself is the identity, and computing that product
/// never overflows.
pub proof fn lemma_identity_mat_mul<T: Scalar>(n: nat)
    ensures
        mat_mul_ok::<T>(identity(n), identity(n)),
        mat_mul(identity(n), identity(n)) == identity(n),
{
    T::lemma_bounds();
    let id = identity(n);
    assert forall|j: int| 0 <= j < n implies #[trigger] mat_vec_ok::<T>(id, id[j]) by {
        assert(id[j].len() == n);
        assert(all_fit::<T>(id[j]));
        lemma_identity_mat_vec::<T>(id[j]);
    }
    assert forall|j: int| 0 <= j < n implies #[trigger] mat_mul(id, id)[j] == id[j] by {
        assert(id[j].len() == n);
        assert(all_fit::<T>(id[j]));
        lemma_identity_mat_vec::<T>(id[j]);
    }
    assert(mat_mul(id, id) =~= id);
}

} // verus!
