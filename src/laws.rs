//! Facts relating the products to one another and to repeated calls.
use vstd::prelude::*;

use crate::kernel::{column, dot_rel, mat_vec_rel, rows_have_len, square_rel, ScalarOps};

verus! {

/// Each operation gives one result for one pair of arguments.
pub open spec fn deterministic<T, A: Fn(T, T) -> T, M: Fn(T, T) -> T>(
    ops: ScalarOps<T, A, M>,
) -> bool {
    &&& forall|u: T, v: T, r1: T, r2: T|
        #[trigger] ops.add.ensures((u, v), r1) && #[trigger] ops.add.ensures((u, v), r2) ==> r1
            == r2
    &&& forall|u: T, v: T, r1: T, r2: T|
        #[trigger] ops.mul.ensures((u, v), r1) && #[trigger] ops.mul.ensures((u, v), r2) ==> r1
            == r2
}

/// With deterministic scalar operations, a dot product has a single value:
/// two calls of `dot` (or `x_dot_x`) on the same vectors agree.
pub proof fn lemma_dot_unique<T, A: Fn(T, T) -> T, M: Fn(T, T) -> T>(
    ops: ScalarOps<T, A, M>,
    a: Seq<T>,
    x: Seq<T>,
    r1: T,
    r2: T,
)
    requires
        deterministic(ops),
        dot_rel(ops, a, x, r1),
        dot_rel(ops, a, x, r2),
    ensures
        r1 == r2,
    decreases a.len(),
{
    if a.len() > 0 {
        let (prev1, p1) = choose|prev: T, p: T|
            dot_rel(ops, a.drop_last(), x.drop_last(), prev) && ops.mul.ensures(
                (a.last(), x.last()),
                p,
            ) && ops.add.ensures((prev, p), r1);
        let (prev2, p2) = choose|prev: T, p: T|
            dot_rel(ops, a.drop_last(), x.drop_last(), prev) && ops.mul.ensures(
                (a.last(), x.last()),
                p,
            ) && ops.add.ensures((prev, p), r2);
        lemma_dot_unique(ops, a.drop_last(), x.drop_last(), prev1, prev2);
        assert(p1 == p2);
    }
}

/// With deterministic scalar operations, entry `i` of a matrix-vector product
/// is the dot product of row `i` with the vector.
pub proof fn lemma_matrix_dot_vec_row<T, A: Fn(T, T) -> T, M: Fn(T, T) -> T>(
    ops: ScalarOps<T, A, M>,
    m: Seq<Vec<T>>,
    x: Seq<T>,
    y: Seq<T>,
    i: int,
    d: T,
)
    requires
        deterministic(ops),
        mat_vec_rel(ops, m, x, y),
        0 <= i < m.len(),
        dot_rel(ops, m[i]@, x, d),
    ensures
        y[i] == d,
{
    lemma_dot_unique(ops, m[i]@, x, y[i], d);
}

/// With deterministic scalar operations, a matrix-vector product has a single
/// value: two calls of `matrix_dot_vec` on the same arguments agree.
pub proof fn lemma_matrix_dot_vec_unique<T, A: Fn(T, T) -> T, M: Fn(T, T) -> T>(
    ops: ScalarOps<T, A, M>,
    m: Seq<Vec<T>>,
    x: Seq<T>,
    y1: Seq<T>,
    y2: Seq<T>,
)
    requires
        deterministic(ops),
        mat_vec_rel(ops, m, x, y1),
        mat_vec_rel(ops, m, x, y2),
    ensures
        y1 == y2,
{
    assert forall|i: int| 0 <= i < y1.len() implies y1[i] == y2[i] by {
        lemma_dot_unique(ops, m[i]@, x, y1[i], y2[i]);
    }
    assert(y1 =~= y2);
}

/// With deterministic scalar operations, the quadratic form equals the dot
/// product of the matrix-vector product with the vector, whichever call
/// computed either.
pub proof fn lemma_quadratic_form<T, A: Fn(T, T) -> T, M: Fn(T, T) -> T>(
    ops: ScalarOps<T, A, M>,
    m: Seq<Vec<T>>,
    x: Seq<T>,
    y: Seq<T>,
    q: T,
    d: T,
)
    requires
        deterministic(ops),
        exists|z: Seq<T>| #[trigger] mat_vec_rel(ops, m, x, z) && dot_rel(ops, z, x, q),
        mat_vec_rel(ops, m, x, y),
        dot_rel(ops, y, x, d),
    ensures
        q == d,
{
    let z = choose|z: Seq<T>| #[trigger] mat_vec_rel(ops, m, x, z) && dot_rel(ops, z, x, q);
    lemma_matrix_dot_vec_unique(ops, m, x, z, y);
    lemma_dot_unique(ops, y, x, q, d);
}

/// With deterministic scalar operations, the square of a matrix has a single
/// value: two calls of `matrix_dot_matrix` on the same matrix agree.
pub proof fn lemma_matrix_dot_matrix_unique<T, A: Fn(T, T) -> T, M: Fn(T, T) -> T>(
    ops: ScalarOps<T, A, M>,
    m: Seq<Vec<T>>,
    out1: Seq<Vec<T>>,
    out2: Seq<Vec<T>>,
)
    requires
        deterministic(ops),
        square_rel(ops, m, out1),
        square_rel(ops, m, out2),
    ensures
        forall|i: int| 0 <= i < m.len() ==> (#[trigger] out1[i])@ == out2[i]@,
{
    assert forall|i: int| 0 <= i < m.len() implies (#[trigger] out1[i])@ == out2[i]@ by {
        assert forall|j: int| 0 <= j < m.len() implies out1[i]@[j] == out2[i]@[j] by {
            lemma_dot_unique(ops, m[i]@, column(m, j), out1[i]@[j], out2[i]@[j]);
        }
        assert(rows_have_len(out1, m.len()));
        assert(out1[i].len() == m.len());
        assert(out2[i].len() == m.len());
        assert(out1[i]@ =~= out2[i]@);
    }
}

} // verus!
