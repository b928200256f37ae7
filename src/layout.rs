//! Lateral layout of a track ribbon.
//!
//! A ribbon is cut into columns across its width: an inner shoulder, the
//! track body and an outer shoulder. Positions across the ribbon are kept as
//! exact linear combinations of the track width and of the shoulder width, so
//! the host can evaluate them for any concrete widths.
use vstd::prelude::*;

verus! {

/// Which part of the cross-section a column belongs to.
#[derive(Clone, Copy, Debug, PartialEq, Eq, Structural)]
pub enum Band {
    /// Feathered region on the -Y side, outside the track body.
    InnerShoulder,
    /// The drivable surface.
    Body,
    /// Feathered region on the +Y side, outside the track body.
    OuterShoulder,
}

/// A lateral offset `(width_num * width + shoulder_num * shoulder_width) / den`,
/// where `width` is the track width and `shoulder_width` the width of one shoulder.
#[derive(Clone, Copy, Debug, PartialEq, Eq, Structural)]
pub struct Lateral {
    pub width_num: i64,
    pub shoulder_num: i64,
    pub den: u64,
}

/// The fraction `num / den`.
#[derive(Clone, Copy, Debug, PartialEq, Eq, Structural)]
pub struct Fraction {
    pub num: u32,
    pub den: u32,
}

/// One column of the ribbon: its band, its lateral offset and its blend
/// factor (0 across the body, 1 at the outer feather edges).
#[derive(Clone, Copy, Debug, PartialEq, Eq, Structural)]
pub struct Column {
    pub band: Band,
    pub lateral: Lateral,
    pub blend: Fraction,
}

/// Largest number of columns a ribbon may have.
pub const MAX_COLUMNS: u32 = 1_000_000;

/// Column counts of a ribbon: `body_columns` vertices span the track width,
/// `shoulder_columns` vertices span each shoulder (the two shared with the
/// body counted once), so a ribbon has
/// `body_columns + 2 * shoulder_columns - 2` columns.
#[derive(Clone, Copy, Debug, PartialEq, Eq, Structural)]
pub struct RibbonLayout {
    pub body_columns: u32,
    pub shoulder_columns: u32,
}

impl RibbonLayout {
    pub open spec fn wf(self) -> bool {
        &&& 2 <= self.body_columns
        &&& 2 <= self.shoulder_columns
        &&& self.body_columns + 2 * self.shoulder_columns - 2 <= MAX_COLUMNS
    }

    /// Number of columns across the ribbon.
    pub open spec fn total(self) -> int {
        self.body_columns + 2 * self.shoulder_columns - 2
    }

    /// Band of column `j`.
    pub open spec fn band_of(self, j: int) -> Band {
        let nt = self.shoulder_columns as int;
        let nr = self.body_columns as int;
        if j < nt - 1 {
            Band::InnerShoulder
        } else if j <= nt + nr - 2 {
            Band::Body
        } else {
            Band::OuterShoulder
        }
    }

    /// Numerator of the blend factor of column `j`; its denominator is
    /// `shoulder_columns - 1`.
    pub open spec fn blend_num_of(self, j: int) -> int {
        let nt = self.shoulder_columns as int;
        let nr = self.body_columns as int;
        match self.band_of(j) {
            Band::InnerShoulder => nt - 1 - j,
            Band::Body => 0,
            Band::OuterShoulder => j - (nt + nr - 2),
        }
    }

    /// Lateral offset of column `j` as (width coefficient, shoulder
    /// coefficient, denominator): the inner shoulder runs from
    /// `-width/2 - shoulder_width` to `-width/2`, the body from `-width/2` to
    /// `width/2`, the outer shoulder from `width/2` to `width/2 + shoulder_width`.
    pub open spec fn lateral_of(self, j: int) -> (int, int, int) {
        let nt = self.shoulder_columns as int;
        let nr = self.body_columns as int;
        match self.band_of(j) {
            Band::InnerShoulder => (-(nt - 1), -2 * (nt - 1 - j), 2 * (nt - 1)),
            Band::Body => (2 * (j - (nt - 1)) - (nr - 1), 0int, 2 * (nr - 1)),
            Band::OuterShoulder => (nt - 1, 2 * (j - (nt + nr - 2)), 2 * (nt - 1)),
        }
    }

    /// The column record of column `j`.
    pub open spec fn column_of(self, j: int) -> Column {
        let l = self.lateral_of(j);
        Column {
            band: self.band_of(j),
            lateral: Lateral { width_num: l.0 as i64, shoulder_num: l.1 as i64, den: l.2 as u64 },
            blend: Fraction {
                num: self.blend_num_of(j) as u32,
                den: (self.shoulder_columns - 1) as u32,
            },
        }
    }

    /// Layout for the given counts; `None` when either count is below two
    /// (the body or a shoulder would have no extent) or the ribbon would have
    /// more than `MAX_COLUMNS` columns.
    pub fn new(body_columns: u32, shoulder_columns: u32) -> (r: Option<RibbonLayout>)
        ensures
            r.is_some() <==> (2 <= body_columns && 2 <= shoulder_columns && body_columns + 2
                * shoulder_columns - 2 <= MAX_COLUMNS),
            r matches Some(l) ==> l.wf() && l.body_columns == body_columns && l.shoulder_columns
                == shoulder_columns,
    {
        if body_columns < 2 || shoulder_columns < 2 || body_columns > MAX_COLUMNS
            || shoulder_columns > MAX_COLUMNS {
            return None;
        }
        if body_columns + 2 * shoulder_columns - 2 > MAX_COLUMNS {
            return None;
        }
        Some(RibbonLayout { body_columns, shoulder_columns })
    }

    /// Number of columns across the ribbon.
    pub fn total_columns(&self) -> (r: u32)
        requires
            self.wf(),
        ensures
            r == self.total(),
    {
        self.body_columns + 2 * self.shoulder_columns - 2
    }

    /// The column record of column `j`.
    pub fn column(&self, j: u32) -> (r: Column)
        requires
            self.wf(),
            j < self.total(),
        ensures
            r == self.column_of(j as int),
    {
        let nt = self.shoulder_columns as i64;
        let nr = self.body_columns as i64;
        let jj = j as i64;
        let blend_den = self.shoulder_columns - 1;
        if jj < nt - 1 {
            Column {
                band: Band::InnerShoulder,
                lateral: Lateral {
                    width_num: -(nt - 1),
                    shoulder_num: -2 * (nt - 1 - jj),
                    den: (2 * (nt - 1)) as u64,
                },
                blend: Fraction { num: (nt - 1 - jj) as u32, den: blend_den },
            }
        } else if jj <= nt + nr - 2 {
            Column {
                band: Band::Body,
                lateral: Lateral {
                    width_num: 2 * (jj - (nt - 1)) - (nr - 1),
                    shoulder_num: 0,
                    den: (2 * (nr - 1)) as u64,
                },
                blend: Fraction { num: 0, den: blend_den },
            }
        } else {
            Column {
                band: Band::OuterShoulder,
                lateral: Lateral {
                    width_num: nt - 1,
                    shoulder_num: 2 * (jj - (nt + nr - 2)),
                    den: (2 * (nt - 1)) as u64,
                },
                blend: Fraction { num: (jj - (nt + nr - 2)) as u32, den: blend_den },
            }
        }
    }

    /// All columns, from the -Y edge to the +Y edge.
    pub fn columns(&self) -> (r: Vec<Column>)
        requires
            self.wf(),
        ensures
            r@.len() == self.total(),
            forall|j: int| 0 <= j < self.total() ==> r@[j] == self.column_of(j),
    {
        let n = self.total_columns();
        let mut r: Vec<Column> = Vec::new();
        let mut j: u32 = 0;
        while j < n
            invariant
                self.wf(),
                n == self.total(),
                j <= n,
                r@.len() == j,
                forall|k: int| 0 <= k < j ==> r@[k] == self.column_of(k),
            decreases n - j,
        {
            r.push(self.column(j));
            j = j + 1;
        }
        r
    }
}

/// Offset `(w, s, d)` scaled by its denominator, for a track width `width`
/// and a shoulder width `shoulder`.
pub open spec fn scaled_offset(l: (int, int, int), width: int, shoulder: int) -> int {
    l.0 * width + l.1 * shoulder
}

/// The offset lies within the track body: `|offset| <= width / 2`.
pub open spec fn within_body(l: (int, int, int), width: int, shoulder: int) -> bool {
    let v = scaled_offset(l, width, shoulder);
    2 * (if v < 0 { -v } else { v }) <= l.2 * width
}

/// Shoulder encoding. For any positive track and shoulder widths: every
/// column whose offset lies within the track body has blend 0; the two
/// outermost columns lie at `-(width/2 + shoulder)` and `width/2 + shoulder`
/// and have blend 1; the blend strictly falls across the inner shoulder
/// toward the body and strictly rises across the outer shoulder away from it.
pub proof fn lemma_shoulder_encoding(layout: RibbonLayout, width: int, shoulder: int)
    requires
        layout.wf(),
        0 < width,
        0 < shoulder,
    ensures
        forall|j: int|
            0 <= j < layout.total() && within_body(layout.lateral_of(j), width, shoulder)
                ==> layout.blend_num_of(j) == 0,
        2 * scaled_offset(layout.lateral_of(0), width, shoulder) == -(width + 2 * shoulder)
            * layout.lateral_of(0).2,
        2 * scaled_offset(layout.lateral_of(layout.total() - 1), width, shoulder) == (width + 2
            * shoulder) * layout.lateral_of(layout.total() - 1).2,
        layout.blend_num_of(0) == layout.shoulder_columns - 1,
        layout.blend_num_of(layout.total() - 1) == layout.shoulder_columns - 1,
        forall|i: int, j: int|
            0 <= i < j <= layout.shoulder_columns - 1 ==> layout.blend_num_of(i)
                > layout.blend_num_of(j),
        forall|i: int, j: int|
            layout.shoulder_columns + layout.body_columns - 2 <= i < j < layout.total()
                ==> layout.blend_num_of(i) < layout.blend_num_of(j),
{
    let nt = layout.shoulder_columns as int;
    let nr = layout.body_columns as int;
    assert forall|j: int|
        0 <= j < layout.total() && within_body(layout.lateral_of(j), width, shoulder) implies
            layout.blend_num_of(j) == 0 by {
        if j < nt - 1 {
            let k = nt - 1 - j;
            assert(k * shoulder > 0) by (nonlinear_arith)
                requires
                    k > 0,
                    shoulder > 0,
            ;
            assert(scaled_offset(layout.lateral_of(j), width, shoulder) == -((nt - 1) * width)
                - 2 * (k * shoulder)) by (nonlinear_arith)
                requires
                    layout.lateral_of(j) == (-(nt - 1), -2 * k, 2 * (nt - 1)),
            ;
            assert((2 * (nt - 1)) * width == 2 * ((nt - 1) * width)) by (nonlinear_arith);
            assert((nt - 1) * width > 0) by (nonlinear_arith)
                requires
                    nt > 1,
                    width > 0,
            ;
        } else if j > nt + nr - 2 {
            let k = j - (nt + nr - 2);
            assert(k * shoulder > 0) by (nonlinear_arith)
                requires
                    k > 0,
                    shoulder > 0,
            ;
            assert(scaled_offset(layout.lateral_of(j), width, shoulder) == (nt - 1) * width + 2
                * (k * shoulder)) by (nonlinear_arith)
                requires
                    layout.lateral_of(j) == (nt - 1, 2 * k, 2 * (nt - 1)),
            ;
            assert((2 * (nt - 1)) * width == 2 * ((nt - 1) * width)) by (nonlinear_arith);
            assert((nt - 1) * width > 0) by (nonlinear_arith)
                requires
                    nt > 1,
                    width > 0,
            ;
        }
    }
    let l0 = layout.lateral_of(0);
    assert(l0 == (-(nt - 1), -2 * (nt - 1), 2 * (nt - 1)));
    assert(2 * scaled_offset(l0, width, shoulder) == -(width + 2 * shoulder) * l0.2)
        by (nonlinear_arith)
        requires
            l0 == (-(nt - 1), -2 * (nt - 1), 2 * (nt - 1)),
    ;
    let ln = layout.lateral_of(layout.total() - 1);
    assert(ln == (nt - 1, 2 * (nt - 1), 2 * (nt - 1)));
    assert(2 * scaled_offset(ln, width, shoulder) == (width + 2 * shoulder) * ln.2)
        by (nonlinear_arith)
        requires
            ln == (nt - 1, 2 * (nt - 1), 2 * (nt - 1)),
    ;
}

/// The offset lies across the whole ribbon:
/// `|offset| <= width / 2 + shoulder`.
pub open spec fn within_ribbon(l: (int, int, int), width: int, shoulder: int) -> bool {
    let v = scaled_offset(l, width, shoulder);
    2 * (if v < 0 { -v } else { v }) <= l.2 * (width + 2 * shoulder)
}

/// The offset `a` lies strictly on the -Y side of the offset `b`.
pub open spec fn offset_before(a: (int, int, int), b: (int, int, int), width: int, shoulder: int) -> bool {
    scaled_offset(a, width, shoulder) * b.2 < scaled_offset(b, width, shoulder) * a.2
}

proof fn lemma_column_within(layout: RibbonLayout, width: int, shoulder: int, j: int)
    requires
        layout.wf(),
        0 < width,
        0 < shoulder,
        0 <= j < layout.total(),
    ensures
        layout.lateral_of(j).2 > 0,
        within_ribbon(layout.lateral_of(j), width, shoulder),
{
    let nt = layout.shoulder_columns as int;
    let nr = layout.body_columns as int;
    let l = layout.lateral_of(j);
    if j < nt - 1 {
        assert(within_ribbon(l, width, shoulder)) by (nonlinear_arith)
            requires
                l == (-(nt - 1), -2 * (nt - 1 - j), 2 * (nt - 1)),
                0 <= j < nt - 1,
                0 < width,
                0 < shoulder,
        ;
    } else if j <= nt + nr - 2 {
        assert(within_ribbon(l, width, shoulder)) by (nonlinear_arith)
            requires
                l == (2 * (j - (nt - 1)) - (nr - 1), 0int, 2 * (nr - 1)),
                nt - 1 <= j <= nt + nr - 2,
                2 <= nr,
                0 < width,
                0 < shoulder,
        ;
    } else {
        assert(within_ribbon(l, width, shoulder)) by (nonlinear_arith)
            requires
                l == (nt - 1, 2 * (j - (nt + nr - 2)), 2 * (nt - 1)),
                nt + nr - 2 < j <= 2 * nt + nr - 3,
                0 < width,
                0 < shoulder,
        ;
    }
}

proof fn lemma_column_before_next(layout: RibbonLayout, width: int, shoulder: int, j: int)
    requires
        layout.wf(),
        0 < width,
        0 < shoulder,
        0 <= j < layout.total() - 1,
    ensures
        offset_before(layout.lateral_of(j), layout.lateral_of(j + 1), width, shoulder),
{
    let nt = layout.shoulder_columns as int;
    let nr = layout.body_columns as int;
    let a = layout.lateral_of(j);
    let b = layout.lateral_of(j + 1);
    if j < nt - 2 {
        assert(offset_before(a, b, width, shoulder)) by (nonlinear_arith)
            requires
                a == (-(nt - 1), -2 * (nt - 1 - j), 2 * (nt - 1)),
                b == (-(nt - 1), -2 * (nt - 1 - (j + 1)), 2 * (nt - 1)),
                2 <= nt,
                0 < shoulder,
        ;
    } else if j == nt - 2 {
        assert(offset_before(a, b, width, shoulder)) by (nonlinear_arith)
            requires
                a == (-(nt - 1), -2int, 2 * (nt - 1)),
                b == (-(nr - 1), 0int, 2 * (nr - 1)),
                2 <= nt,
                2 <= nr,
                0 < shoulder,
        ;
    } else if j < nt + nr - 2 {
        assert(offset_before(a, b, width, shoulder)) by (nonlinear_arith)
            requires
                a == (2 * (j - (nt - 1)) - (nr - 1), 0int, 2 * (nr - 1)),
                b == (2 * (j + 1 - (nt - 1)) - (nr - 1), 0int, 2 * (nr - 1)),
                2 <= nr,
                0 < width,
        ;
    } else if j == nt + nr - 2 {
        assert(offset_before(a, b, width, shoulder)) by (nonlinear_arith)
            requires
                a == (nr - 1, 0int, 2 * (nr - 1)),
                b == (nt - 1, 2int, 2 * (nt - 1)),
                2 <= nt,
                2 <= nr,
                0 < shoulder,
        ;
    } else {
        assert(offset_before(a, b, width, shoulder)) by (nonlinear_arith)
            requires
                a == (nt - 1, 2 * (j - (nt + nr - 2)), 2 * (nt - 1)),
                b == (nt - 1, 2 * (j + 1 - (nt + nr - 2)), 2 * (nt - 1)),
                2 <= nt,
                0 < shoulder,
        ;
    }
}

/// The columns cross the ribbon in order, for any positive track and
/// shoulder widths: every offset lies within
/// `[-(width/2 + shoulder), width/2 + shoulder]`, and every column lies
/// strictly on the +Y side of the one before it.
pub proof fn lemma_columns_cross_in_order(layout: RibbonLayout, width: int, shoulder: int)
    requires
        layout.wf(),
        0 < width,
        0 < shoulder,
    ensures
        forall|j: int|
            0 <= j < layout.total() ==> #[trigger] layout.lateral_of(j).2 > 0 && within_ribbon(
                layout.lateral_of(j),
                width,
                shoulder,
            ),
        forall|j: int|
            0 <= j < layout.total() - 1 ==> offset_before(
                #[trigger] layout.lateral_of(j),
                layout.lateral_of(j + 1),
                width,
                shoulder,
            ),
{
    assert forall|j: int| 0 <= j < layout.total() implies #[trigger] layout.lateral_of(j).2 > 0
        && within_ribbon(layout.lateral_of(j), width, shoulder) by {
        lemma_column_within(layout, width, shoulder, j);
    }
    assert forall|j: int| 0 <= j < layout.total() - 1 implies offset_before(
        #[trigger] layout.lateral_of(j),
        layout.lateral_of(j + 1),
        width,
        shoulder,
    ) by {
        lemma_column_before_next(layout, width, shoulder, j);
    }
}

} // verus!
