//! Tessellation plans of the track ribbon and of the terrain grid.
//!
//! A plan fixes everything about a mesh but the floating-point evaluation of
//! its vertices: how many rows and columns it has, at which arc parameter
//! each row of a ribbon is evaluated, the column records across a ribbon,
//! the texture coordinates of the terrain, and the triangle indices.
use vstd::prelude::*;
use crate::grid::{grid_indices, grid_indices_spec, MAX_GRID_VERTICES};
use crate::layout::{Column, Fraction, RibbonLayout};

verus! {

/// Plan of one segment's ribbon. Vertex `(i, j)` (row `i` along the arc,
/// column `j` across it) has index `i * columns.len() + j`; row `i` is
/// evaluated at arc parameter `row_params[i]`.
pub struct RibbonPlan {
    pub rows: u32,
    pub row_params: Vec<Fraction>,
    pub columns: Vec<Column>,
    pub indices: Vec<u32>,
}

/// A segment with `rows` rows across `layout` yields a mesh: it has at least
/// two rows and its vertices can be addressed by 32-bit indices.
pub open spec fn ribbon_builds(rows: int, layout: RibbonLayout) -> bool {
    2 <= rows && rows * layout.total() <= MAX_GRID_VERTICES
}

impl RibbonPlan {
    /// The plan is the tessellation of `rows` rows across `layout`.
    pub open spec fn plans(&self, rows: int, layout: RibbonLayout) -> bool {
        &&& self.rows == rows
        &&& self.row_params@.len() == rows
        &&& forall|i: int|
            0 <= i < rows ==> #[trigger] self.row_params@[i] == (Fraction {
                num: i as u32,
                den: (rows - 1) as u32,
            })
        &&& self.columns@.len() == layout.total()
        &&& forall|j: int| 0 <= j < layout.total() ==> #[trigger] self.columns@[j] == layout.column_of(j)
        &&& self.indices@ == grid_indices_spec(layout.total(), rows - 1)
    }
}

proof fn lemma_product_fits(a: int, b: int)
    requires
        0 <= a <= u32::MAX,
        0 <= b <= u32::MAX,
    ensures
        0 <= a * b <= u64::MAX,
{
    assert(0 <= a * b <= u32::MAX * u32::MAX) by (nonlinear_arith)
        requires
            0 <= a <= u32::MAX,
            0 <= b <= u32::MAX,
    ;
}

/// Arc parameters `i / (rows - 1)` of `rows` rows, from 0 to 1.
fn row_params(rows: u32) -> (r: Vec<Fraction>)
    requires
        2 <= rows,
    ensures
        r@.len() == rows,
        forall|i: int|
            0 <= i < rows ==> #[trigger] r@[i] == (Fraction { num: i as u32, den: (rows - 1) as u32 }),
{
    let mut r: Vec<Fraction> = Vec::new();
    let mut i: u32 = 0;
    while i < rows
        invariant
            2 <= rows,
            i <= rows,
            r@.len() == i,
            forall|k: int|
                0 <= k < i ==> #[trigger] r@[k] == (Fraction { num: k as u32, den: (rows - 1) as u32 }),
        decreases rows - i,
    {
        r.push(Fraction { num: i, den: rows - 1 });
        i = i + 1;
    }
    r
}

/// Tessellation plan of a segment whose arc is cut into `rows` rows and
/// whose cross-section follows `layout`; `None` when the segment yields no
/// mesh (fewer than two rows, as for a zero-length segment, or more vertices
/// than 32-bit indices address).
pub fn ribbon_plan(rows: u32, layout: RibbonLayout) -> (r: Option<RibbonPlan>)
    requires
        layout.wf(),
    ensures
        r.is_some() <==> ribbon_builds(rows as int, layout),
        r matches Some(p) ==> p.plans(rows as int, layout),
{
    let cols = layout.total_columns();
    proof {
        lemma_product_fits(rows as int, cols as int);
    }
    if rows < 2 || rows as u64 * cols as u64 > MAX_GRID_VERTICES as u64 {
        return None;
    }
    let row_params = row_params(rows);
    let columns = layout.columns();
    let indices = grid_indices(rows, cols);
    Some(RibbonPlan { rows, row_params, columns, indices })
}

/// Rebuilding is idempotent: two ribbon plans of the same rows and layout
/// agree in every row parameter, column record and index.
pub proof fn lemma_ribbon_plan_unique(a: &RibbonPlan, b: &RibbonPlan, rows: int, layout: RibbonLayout)
    requires
        a.plans(rows, layout),
        b.plans(rows, layout),
    ensures
        a.rows == b.rows,
        a.row_params@ == b.row_params@,
        a.columns@ == b.columns@,
        a.indices@ == b.indices@,
{
    assert(a.row_params@ =~= b.row_params@);
    assert(a.columns@ =~= b.columns@);
}

/// Plan of the terrain grid: `x_cells + 1` by `y_cells + 1` vertices spread
/// evenly over the world extent. Vertex `(i, j)` (the `i`-th along X, the
/// `j`-th along Y) has index `i * (y_cells + 1) + j`, so the triangles run
/// counter-clockwise seen from +Z.
pub struct TerrainPlan {
    pub x_cells: u32,
    pub y_cells: u32,
    pub indices: Vec<u32>,
}

/// A terrain grid of `x_cells` by `y_cells` cells can be built: it has at
/// least one cell and its vertices can be addressed by 32-bit indices.
pub open spec fn terrain_builds(x_cells: int, y_cells: int) -> bool {
    1 <= x_cells && 1 <= y_cells && (x_cells + 1) * (y_cells + 1) <= MAX_GRID_VERTICES
}

impl TerrainPlan {
    pub open spec fn wf(&self) -> bool {
        &&& terrain_builds(self.x_cells as int, self.y_cells as int)
        &&& self.indices@ == grid_indices_spec(self.y_cells + 1, self.x_cells as int)
    }

    /// Texture coordinates of vertex `(i, j)`: `u = i / x_cells` and
    /// `v = 1 - j / y_cells`, flipped so that the texture reads as the track
    /// map was rendered.
    pub open spec fn uv_of(&self, i: int, j: int) -> (Fraction, Fraction) {
        (
            Fraction { num: i as u32, den: self.x_cells },
            Fraction { num: (self.y_cells - j) as u32, den: self.y_cells },
        )
    }

    /// Texture coordinates of vertex `(i, j)`.
    pub fn uv(&self, i: u32, j: u32) -> (r: (Fraction, Fraction))
        requires
            self.wf(),
            i <= self.x_cells,
            j <= self.y_cells,
        ensures
            r == self.uv_of(i as int, j as int),
    {
        (Fraction { num: i, den: self.x_cells }, Fraction { num: self.y_cells - j, den: self.y_cells })
    }
}

/// Rebuilding is idempotent: two terrain plans of the same cell counts have
/// the same indices and the same texture coordinates at every vertex.
pub proof fn lemma_terrain_plan_unique(a: &TerrainPlan, b: &TerrainPlan)
    requires
        a.wf(),
        b.wf(),
        a.x_cells == b.x_cells,
        a.y_cells == b.y_cells,
    ensures
        a.indices@ == b.indices@,
        forall|i: int, j: int| #[trigger] a.uv_of(i, j) == b.uv_of(i, j),
{
}

/// Plan of a terrain grid of `x_cells` by `y_cells` cells; `None` when it
/// has no cell or more vertices than 32-bit indices address.
pub fn terrain_plan(x_cells: u32, y_cells: u32) -> (r: Option<TerrainPlan>)
    ensures
        r.is_some() <==> terrain_builds(x_cells as int, y_cells as int),
        r matches Some(p) ==> p.wf() && p.x_cells == x_cells && p.y_cells == y_cells,
{
    if x_cells < 1 || y_cells < 1 || x_cells >= MAX_GRID_VERTICES || y_cells >= MAX_GRID_VERTICES {
        proof {
            if 1 <= x_cells && 1 <= y_cells {
                assert((x_cells + 1) * (y_cells + 1) > MAX_GRID_VERTICES) by (nonlinear_arith)
                    requires
                        1 <= x_cells,
                        1 <= y_cells,
                        x_cells >= MAX_GRID_VERTICES || y_cells >= MAX_GRID_VERTICES,
                ;
            }
        }
        return None;
    }
    let rows = x_cells + 1;
    let cols = y_cells + 1;
    proof {
        lemma_product_fits(rows as int, cols as int);
    }
    if rows as u64 * cols as u64 > MAX_GRID_VERTICES as u64 {
        return None;
    }
    let indices = grid_indices(rows, cols);
    Some(TerrainPlan { x_cells, y_cells, indices })
}

} // verus!
