//! Triangle index buffers of regular vertex grids.
//!
//! A grid of `rows x cols` vertices is stored row by row: vertex `(i, j)` has
//! index `i * cols + j`. Each cell `(i, j)` becomes the quad
//! `(i, j) -> (i + 1, j) -> (i + 1, j + 1) -> (i, j + 1)`, split into the two
//! triangles that share its first and third corner. When rows advance along
//! +X and columns along +Y the quads, and so the triangles, run
//! counter-clockwise seen from +Z.
use vstd::prelude::*;

verus! {

/// Largest number of vertices a grid may have: every index, and the number
/// of indices, then fits in 32 bits.
pub const MAX_GRID_VERTICES: u32 = 715_827_882;

/// Index of vertex `(i, j)` in a grid with `cols` columns.
pub open spec fn vertex_id(cols: int, i: int, j: int) -> u32 {
    (i * cols + j) as u32
}

/// The six indices of cell `(i, j)`: triangles `a b c` and `a c d` of the
/// quad `a b c d`.
pub open spec fn cell_indices(cols: int, i: int, j: int) -> Seq<u32> {
    let a = vertex_id(cols, i, j);
    let b = vertex_id(cols, i + 1, j);
    let c = vertex_id(cols, i + 1, j + 1);
    let d = vertex_id(cols, i, j + 1);
    seq![a, b, c, a, c, d]
}

/// Indices of the first `n` cells of row `i`.
pub open spec fn row_indices(cols: int, i: int, n: int) -> Seq<u32>
    decreases n,
{
    if n <= 0 {
        Seq::empty()
    } else {
        row_indices(cols, i, n - 1) + cell_indices(cols, i, n - 1)
    }
}

/// Indices of the cells of the first `n` rows of cells, row by row.
pub open spec fn grid_indices_spec(cols: int, n: int) -> Seq<u32>
    decreases n,
{
    if n <= 0 {
        Seq::empty()
    } else {
        grid_indices_spec(cols, n - 1) + row_indices(cols, n - 1, cols - 1)
    }
}

proof fn lemma_row_len(cols: int, i: int, n: int)
    requires
        0 <= n,
    ensures
        row_indices(cols, i, n).len() == 6 * n,
    decreases n,
{
    if n > 0 {
        lemma_row_len(cols, i, n - 1);
    }
}

proof fn lemma_grid_len(cols: int, n: int)
    requires
        0 <= n,
        1 <= cols,
    ensures
        grid_indices_spec(cols, n).len() == 6 * n * (cols - 1),
    decreases n,
{
    if n > 0 {
        lemma_grid_len(cols, n - 1);
        lemma_row_len(cols, n - 1, cols - 1);
        assert(grid_indices_spec(cols, n) == grid_indices_spec(cols, n - 1) + row_indices(
            cols,
            n - 1,
            cols - 1,
        ));
        assert(6 * (n - 1) * (cols - 1) + 6 * (cols - 1) == 6 * n * (cols - 1))
            by (nonlinear_arith);
    } else {
        assert(6 * n * (cols - 1) == 0) by (nonlinear_arith)
            requires
                n == 0,
        ;
    }
}

proof fn lemma_corner_bound(rows: int, cols: int, i: int, j: int)
    requires
        0 <= i < rows - 1,
        0 <= j < cols - 1,
    ensures
        (i + 1) * cols == i * cols + cols,
        0 <= i * cols,
        (i + 1) * cols + j + 1 < rows * cols,
{
    assert((i + 1) * cols == i * cols + cols) by (nonlinear_arith);
    assert(0 <= i * cols) by (nonlinear_arith)
        requires
            0 <= i,
            0 <= cols,
    ;
    assert((i + 2) * cols <= rows * cols) by (nonlinear_arith)
        requires
            i + 2 <= rows,
            0 <= cols,
    ;
    assert((i + 2) * cols == (i + 1) * cols + cols) by (nonlinear_arith);
}

proof fn lemma_row_at(cols: int, i: int, n: int, j: int, k: int)
    requires
        0 <= j < n,
        0 <= k < 6,
    ensures
        row_indices(cols, i, n)[6 * j + k] == cell_indices(cols, i, j)[k],
    decreases n,
{
    lemma_row_len(cols, i, n - 1);
    if j < n - 1 {
        lemma_row_at(cols, i, n - 1, j, k);
    }
}

proof fn lemma_grid_at(cols: int, n: int, i: int, j: int, k: int)
    requires
        1 <= cols,
        0 <= i < n,
        0 <= j < cols - 1,
        0 <= k < 6,
    ensures
        grid_indices_spec(cols, n)[6 * (i * (cols - 1) + j) + k] == cell_indices(cols, i, j)[k],
    decreases n,
{
    let p = 6 * (i * (cols - 1) + j) + k;
    lemma_grid_len(cols, n - 1);
    lemma_row_len(cols, n - 1, cols - 1);
    if i < n - 1 {
        assert(i * (cols - 1) + j < (i + 1) * (cols - 1)) by (nonlinear_arith)
            requires
                j < cols - 1,
        ;
        assert((i + 1) * (cols - 1) <= (n - 1) * (cols - 1)) by (nonlinear_arith)
            requires
                i + 1 <= n - 1,
                1 <= cols,
        ;
        assert(6 * (n - 1) * (cols - 1) == 6 * ((n - 1) * (cols - 1))) by (nonlinear_arith);
        lemma_grid_at(cols, n - 1, i, j, k);
    } else {
        assert(p == 6 * (n - 1) * (cols - 1) + (6 * j + k)) by (nonlinear_arith)
            requires
                p == 6 * (i * (cols - 1) + j) + k,
                i == n - 1,
        ;
        lemma_row_at(cols, n - 1, cols - 1, j, k);
    }
}

/// Closed form of a grid's indices: in a grid of `rows x cols` vertices, the
/// six indices of cell `(i, j)` stand at positions `6 * (i * (cols - 1) + j)`
/// to `6 * (i * (cols - 1) + j) + 5`.
pub proof fn lemma_cell_indices_at(rows: int, cols: int, i: int, j: int, k: int)
    requires
        1 <= cols,
        0 <= i < rows - 1,
        0 <= j < cols - 1,
        0 <= k < 6,
    ensures
        grid_indices_spec(cols, rows - 1)[6 * (i * (cols - 1) + j) + k] == cell_indices(
            cols,
            i,
            j,
        )[k],
{
    lemma_grid_at(cols, rows - 1, i, j, k);
}

/// Triangle indices of a grid of `rows x cols` vertices: two triangles per
/// cell, cells row by row, as described in this module.
pub fn grid_indices(rows: u32, cols: u32) -> (r: Vec<u32>)
    requires
        1 <= rows,
        1 <= cols,
        rows * cols <= MAX_GRID_VERTICES,
    ensures
        r@ == grid_indices_spec(cols as int, rows - 1),
        r@.len() == 6 * (rows - 1) * (cols - 1),
        forall|p: int| 0 <= p < r@.len() ==> r@[p] < rows * cols,
{
    let mut r: Vec<u32> = Vec::new();
    let mut i: u32 = 0;
    proof {
        lemma_grid_len(cols as int, rows - 1);
        assert((rows - 1) * (cols - 1) <= rows * cols) by (nonlinear_arith)
            requires
                1 <= rows,
                1 <= cols,
        ;
    }
    while i < rows - 1
        invariant
            1 <= rows,
            1 <= cols,
            rows * cols <= MAX_GRID_VERTICES,
            i <= rows - 1,
            r@ == grid_indices_spec(cols as int, i as int),
            forall|p: int| 0 <= p < r@.len() ==> r@[p] < rows * cols,
        decreases rows - 1 - i,
    {
        let mut j: u32 = 0;
        let ghost start = r@;
        proof {
            lemma_grid_len(cols as int, i as int);
            lemma_grid_len(cols as int, rows - 1);
            assert(6 * i * (cols - 1) + 6 * (cols - 1) <= 6 * (rows - 1) * (cols - 1))
                by (nonlinear_arith)
                requires
                    i + 1 <= rows - 1,
                    1 <= cols,
            ;
            assert(6 * i * (cols - 1) + 6 * (cols - 1) <= 6 * rows * cols) by (nonlinear_arith)
                requires
                    i + 1 <= rows - 1,
                    1 <= cols,
            ;
        }
        while j < cols - 1
            invariant
                1 <= rows,
                1 <= cols,
                rows * cols <= MAX_GRID_VERTICES,
                i < rows - 1,
                j <= cols - 1,
                start == grid_indices_spec(cols as int, i as int),
                start.len() == 6 * i * (cols - 1),
                6 * i * (cols - 1) + 6 * (cols - 1) <= 6 * rows * cols,
                r@ == start + row_indices(cols as int, i as int, j as int),
                forall|p: int| 0 <= p < r@.len() ==> r@[p] < rows * cols,
            decreases cols - 1 - j,
        {
            proof {
                lemma_corner_bound(rows as int, cols as int, i as int, j as int);
                lemma_row_len(cols as int, i as int, j as int);
            }
            let a = i * cols + j;
            let b = a + cols;
            let c = b + 1;
            let d = a + 1;
            r.push(a);
            r.push(b);
            r.push(c);
            r.push(a);
            r.push(c);
            r.push(d);
            proof {
                assert(row_indices(cols as int, i as int, j + 1) == row_indices(
                    cols as int,
                    i as int,
                    j as int,
                ) + cell_indices(cols as int, i as int, j as int));
                assert(r@ =~= start + row_indices(cols as int, i as int, j + 1));
            }
            j = j + 1;
        }
        proof {
            assert(grid_indices_spec(cols as int, i + 1) == grid_indices_spec(cols as int, i as int)
                + row_indices(cols as int, i as int, cols - 1));
        }
        i = i + 1;
    }
    r
}

} // verus!
