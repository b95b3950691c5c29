//! The products themselves: dot, matrix times vector, matrix squared and the
//! quadratic form.
use vstd::prelude::*;

use crate::shape::{check_dot, dot_shape, DimError};

verus! {

/// A matrix stored row by row.
pub type Matrix<T> = Vec<Vec<T>>;

/// The scalar arithmetic the kernel runs on: the additive identity that a
/// sum starts from, and the two operations.
pub struct ScalarOps<T, A, M> {
    pub zero: T,
    pub add: A,
    pub mul: M,
}

/// Both operations accept every pair of scalars.
pub open spec fn total<T, A: Fn(T, T) -> T, M: Fn(T, T) -> T>(ops: ScalarOps<T, A, M>) -> bool {
    &&& forall|u: T, v: T| #[trigger] ops.add.requires((u, v))
    &&& forall|u: T, v: T| #[trigger] ops.mul.requires((u, v))
}

/// `r` is a value that summing `mul(a[k], x[k])` for `k` from first to last,
/// starting from `zero` and adding with `add`, can produce.
pub open spec fn dot_rel<T, A: Fn(T, T) -> T, M: Fn(T, T) -> T>(
    ops: ScalarOps<T, A, M>,
    a: Seq<T>,
    x: Seq<T>,
    r: T,
) -> bool
    decreases a.len(),
{
    if a.len() == 0 {
        r == ops.zero
    } else {
        exists|prev: T, p: T|
            #![trigger ops.add.ensures((prev, p), r), ops.mul.ensures((a.last(), x.last()), p)]
            dot_rel(ops, a.drop_last(), x.drop_last(), prev) && ops.mul.ensures(
                (a.last(), x.last()),
                p,
            ) && ops.add.ensures((prev, p), r)
    }
}

/// Sum of the element-wise products of two vectors of equal length.
fn sum_of_products<T: Copy, A: Fn(T, T) -> T, M: Fn(T, T) -> T>(
    a: &Vec<T>,
    x: &Vec<T>,
    ops: &ScalarOps<T, A, M>,
) -> (r: T)
    requires
        a.len() == x.len(),
        total(*ops),
    ensures
        dot_rel(*ops, a@, x@, r),
{
    let mut acc = ops.zero;
    let mut i: usize = 0;
    while i < a.len()
        invariant
            i <= a.len(),
            a.len() == x.len(),
            total(*ops),
            dot_rel(*ops, a@.take(i as int), x@.take(i as int), acc),
        decreases a.len() - i,
    {
        let p = (ops.mul)(a[i], x[i]);
        let s = (ops.add)(acc, p);
        proof {
            let a2 = a@.take(i + 1);
            let x2 = x@.take(i + 1);
            assert(a2.drop_last() =~= a@.take(i as int));
            assert(x2.drop_last() =~= x@.take(i as int));
            assert(a2.last() == a@[i as int]);
            assert(x2.last() == x@[i as int]);
            assert(dot_rel(*ops, a2, x2, s));
        }
        acc = s;
        i = i + 1;
    }
    assert(a@.take(a.len() as int) =~= a@);
    assert(x@.take(x.len() as int) =~= x@);
    acc
}

/// Dot product of `a` and `x`; vectors of different lengths are refused
/// rather than summed over a prefix.
pub fn dot<T: Copy, A: Fn(T, T) -> T, M: Fn(T, T) -> T>(
    a: &Vec<T>,
    x: &Vec<T>,
    ops: &ScalarOps<T, A, M>,
) -> (r: Result<T, DimError>)
    requires
        total(*ops),
    ensures
        r is Ok <==> a.len() == x.len(),
        r is Ok ==> dot_rel(*ops, a@, x@, r->Ok_0),
        r is Err ==> r == Err::<T, DimError>(
            DimError::DimensionMismatch { left: a.len(), right: x.len() },
        ),
{
    match check_dot(a.len(), x.len()) {
        Ok(_) => Ok(sum_of_products(a, x, ops)),
        Err(e) => Err(e),
    }
}

/// The squared length of `x`: its dot product with itself.
pub fn x_dot_x<T: Copy, A: Fn(T, T) -> T, M: Fn(T, T) -> T>(
    x: &Vec<T>,
    ops: &ScalarOps<T, A, M>,
) -> (r: T)
    requires
        total(*ops),
    ensures
        dot_rel(*ops, x@, x@, r),
{
    sum_of_products(x, x, ops)
}

/// Every row of `m` has `n` entries.
pub open spec fn rows_have_len<T>(m: Seq<Vec<T>>, n: nat) -> bool {
    forall|i: int| 0 <= i < m.len() ==> (#[trigger] m[i]).len() == n
}

/// `m` has as many entries in each row as it has rows.
pub open spec fn is_square<T>(m: Seq<Vec<T>>) -> bool {
    rows_have_len(m, m.len())
}

/// Column `j` of `m`, top to bottom.
pub open spec fn column<T>(m: Seq<Vec<T>>, j: int) -> Seq<T> {
    Seq::new(m.len(), |k: int| m[k]@[j])
}

/// `y` is a possible product of the matrix `m` with the vector `x`: one entry
/// per row, each the dot product of that row with `x`.
pub open spec fn mat_vec_rel<T, A: Fn(T, T) -> T, M: Fn(T, T) -> T>(
    ops: ScalarOps<T, A, M>,
    m: Seq<Vec<T>>,
    x: Seq<T>,
    y: Seq<T>,
) -> bool {
    &&& y.len() == m.len()
    &&& forall|i: int| 0 <= i < m.len() ==> dot_rel(ops, #[trigger] m[i]@, x, y[i])
}

/// `out` is a possible square of the square matrix `m`: entry `(i, j)` is the
/// dot product of row `i` with column `j`.
pub open spec fn square_rel<T, A: Fn(T, T) -> T, M: Fn(T, T) -> T>(
    ops: ScalarOps<T, A, M>,
    m: Seq<Vec<T>>,
    out: Seq<Vec<T>>,
) -> bool {
    &&& out.len() == m.len()
    &&& rows_have_len(out, m.len())
    &&& forall|i: int, j: int|
        0 <= i < m.len() && 0 <= j < m.len() ==> dot_rel(
            ops,
            m[i]@,
            column(m, j),
            #[trigger] out[i]@[j],
        )
}

/// Product of `matrix` with the column vector `x`. Every row must be as long
/// as `x`.
pub fn matrix_dot_vec<T: Copy, A: Fn(T, T) -> T, M: Fn(T, T) -> T>(
    matrix: &Matrix<T>,
    x: &Vec<T>,
    ops: &ScalarOps<T, A, M>,
) -> (y: Vec<T>)
    requires
        total(*ops),
        rows_have_len(matrix@, x.len() as nat),
    ensures
        mat_vec_rel(*ops, matrix@, x@, y@),
{
    let mut y: Vec<T> = Vec::new();
    let mut i: usize = 0;
    while i < matrix.len()
        invariant
            i <= matrix.len(),
            total(*ops),
            rows_have_len(matrix@, x.len() as nat),
            y.len() == i,
            forall|k: int| 0 <= k < i ==> dot_rel(*ops, #[trigger] matrix@[k]@, x@, y@[k]),
        decreases matrix.len() - i,
    {
        let row = &matrix[i];
        assert(row.len() == x.len());
        let v = sum_of_products(row, x, ops);
        y.push(v);
        i = i + 1;
    }
    y
}

/// The columns of the square matrix `m`, each as a vector.
fn columns<T: Copy>(m: &Matrix<T>) -> (cols: Vec<Vec<T>>)
    requires
        is_square(m@),
    ensures
        cols.len() == m.len(),
        forall|j: int| 0 <= j < m.len() ==> (#[trigger] cols@[j])@ == column(m@, j),
{
    let n = m.len();
    let mut cols: Vec<Vec<T>> = Vec::new();
    let mut j: usize = 0;
    while j < n
        invariant
            n == m.len(),
            is_square(m@),
            j <= n,
            cols.len() == j,
            forall|c: int| 0 <= c < j ==> (#[trigger] cols@[c])@ == column(m@, c),
        decreases n - j,
    {
        let mut col: Vec<T> = Vec::new();
        let mut k: usize = 0;
        while k < n
            invariant
                n == m.len(),
                is_square(m@),
                j < n,
                k <= n,
                col.len() == k,
                forall|q: int| 0 <= q < k ==> col@[q] == m@[q]@[j as int],
            decreases n - k,
        {
            assert(m@[k as int].len() == n);
            col.push(m[k][j]);
            k = k + 1;
        }
        assert(col@ =~= column(m@, j as int));
        cols.push(col);
        j = j + 1;
    }
    cols
}

/// The square of the square matrix `matrix`: entry `(i, j)` of the result is
/// row `i` of `matrix` dotted with its column `j`.
pub fn matrix_dot_matrix<T: Copy, A: Fn(T, T) -> T, M: Fn(T, T) -> T>(
    matrix: &Matrix<T>,
    ops: &ScalarOps<T, A, M>,
) -> (out: Matrix<T>)
    requires
        total(*ops),
        is_square(matrix@),
    ensures
        square_rel(*ops, matrix@, out@),
{
    let n = matrix.len();
    let cols = columns(matrix);
    let mut out: Matrix<T> = Vec::new();
    let mut i: usize = 0;
    while i < n
        invariant
            n == matrix.len(),
            total(*ops),
            is_square(matrix@),
            cols.len() == n,
            forall|j: int| 0 <= j < n ==> (#[trigger] cols@[j])@ == column(matrix@, j),
            i <= n,
            out.len() == i,
            rows_have_len(out@, n as nat),
            forall|r: int, j: int|
                0 <= r < i && 0 <= j < n ==> dot_rel(
                    *ops,
                    matrix@[r]@,
                    column(matrix@, j),
                    #[trigger] out@[r]@[j],
                ),
        decreases n - i,
    {
        let row = &matrix[i];
        let mut cells: Vec<T> = Vec::new();
        let mut j: usize = 0;
        while j < n
            invariant
                n == matrix.len(),
                total(*ops),
                is_square(matrix@),
                cols.len() == n,
                forall|c: int| 0 <= c < n ==> (#[trigger] cols@[c])@ == column(matrix@, c),
                i < n,
                row@ == matrix@[i as int]@,
                j <= n,
                cells.len() == j,
                forall|c: int|
                    0 <= c < j ==> dot_rel(*ops, row@, column(matrix@, c), #[trigger] cells@[c]),
            decreases n - j,
        {
            let col = &cols[j];
            assert(col@ == column(matrix@, j as int));
            let v = sum_of_products(row, col, ops);
            cells.push(v);
            j = j + 1;
        }
        out.push(cells);
        i = i + 1;
    }
    out
}

/// The quadratic form `x . (matrix x)`. `matrix` must be square with the
/// length of `x`.
pub fn vec_dot_matrix_dot_vec<T: Copy, A: Fn(T, T) -> T, M: Fn(T, T) -> T>(
    matrix: &Matrix<T>,
    x: &Vec<T>,
    ops: &ScalarOps<T, A, M>,
) -> (r: T)
    requires
        total(*ops),
        matrix.len() == x.len(),
        rows_have_len(matrix@, x.len() as nat),
    ensures
        exists|y: Seq<T>| #[trigger] mat_vec_rel(*ops, matrix@, x@, y) && dot_rel(*ops, y, x@, r),
{
    let y = matrix_dot_vec(matrix, x, ops);
    let r = sum_of_products(&y, x, ops);
    assert(mat_vec_rel(*ops, matrix@, x@, y@));
    r
}

} // verus!
