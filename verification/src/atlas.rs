//! Glyph atlas index: maps a glyph id to a cell of a fixed texture grid and
//! to the UV rectangle of that cell.
//!
//! The atlas is a `columns x rows` grid of equal cells. A glyph id picks a
//! cell in row-major order: row `glyph / columns`, column `glyph % columns`,
//! with UV origin `(0, 0)` at the atlas's top-left texel. A glyph id outside
//! the grid falls back to cell 0; lookup never fails.

use vstd::prelude::*;
use crate::rational::Rat;

verus! {

/// A configuration error from building an atlas grid description.
#[derive(Clone, Copy, Debug, PartialEq, Eq, Structural)]
pub enum AtlasError {
    ZeroColumns,
    ZeroRows,
}

/// Immutable grid shape of a texture atlas, fixed for the texture's lifetime.
#[derive(Clone, Copy, Debug, PartialEq, Eq, Structural)]
pub struct AtlasLayout {
    pub columns: u32,
    pub rows: u32,
}

/// One texture coordinate pair.
#[derive(Clone, Copy, Debug, PartialEq, Eq, Structural)]
pub struct Uv {
    pub u: Rat,
    pub v: Rat,
}

impl Uv {
    pub open spec fn wf(self) -> bool {
        self.u.wf() && self.v.wf()
    }
}

/// The four UV corners of one atlas cell, in the fixed order the mesh
/// builder's index pattern assumes.
#[derive(Clone, Copy, Debug, PartialEq, Eq, Structural)]
pub struct UvRect {
    pub top_left: Uv,
    pub bottom_left: Uv,
    pub bottom_right: Uv,
    pub top_right: Uv,
}

impl UvRect {
    pub open spec fn wf(self) -> bool {
        &&& self.top_left.wf()
        &&& self.bottom_left.wf()
        &&& self.bottom_right.wf()
        &&& self.top_right.wf()
    }
}

impl AtlasLayout {
    /// A layout is well formed when the grid has at least one cell.
    pub open spec fn wf(self) -> bool {
        self.columns > 0 && self.rows > 0
    }

    /// Number of cells in the grid.
    pub open spec fn cell_count(self) -> int {
        self.columns * self.rows
    }

    /// Builds a grid description, rejecting an empty grid shape so that no
    /// later UV computation can divide by zero.
    pub fn new(columns: u32, rows: u32) -> (r: Result<AtlasLayout, AtlasError>)
        ensures
            columns == 0 ==> r == Err::<AtlasLayout, AtlasError>(AtlasError::ZeroColumns),
            columns > 0 && rows == 0 ==> r == Err::<AtlasLayout, AtlasError>(AtlasError::ZeroRows),
            columns > 0 && rows > 0 ==> r == Ok::<AtlasLayout, AtlasError>(
                AtlasLayout { columns, rows },
            ),
            r is Ok <==> columns > 0 && rows > 0,
    {
        if columns == 0 {
            Err(AtlasError::ZeroColumns)
        } else if rows == 0 {
            Err(AtlasError::ZeroRows)
        } else {
            Ok(AtlasLayout { columns, rows })
        }
    }
}

/// The cell a glyph id resolves to: its own cell when the id lies inside the
/// grid, cell 0 (the configured fallback) otherwise. Unknown ids are a
/// lookup miss, not an error.
pub open spec fn resolved_cell(glyph: u32, layout: AtlasLayout) -> int {
    if glyph < layout.cell_count() {
        glyph as int
    } else {
        0
    }
}

/// Grid row of the cell a glyph resolves to.
pub open spec fn cell_row(glyph: u32, layout: AtlasLayout) -> int {
    resolved_cell(glyph, layout) / (layout.columns as int)
}

/// Grid column of the cell a glyph resolves to.
pub open spec fn cell_col(glyph: u32, layout: AtlasLayout) -> int {
    resolved_cell(glyph, layout) % (layout.columns as int)
}

/// The UV rectangle of the cell a glyph resolves to. With cell width
/// `1 / columns` and cell height `1 / rows`, the corner coordinates
/// `col * (1/columns)` and `(col + 1) * (1/columns)` (likewise for rows) are
/// exactly the ratios written here.
pub open spec fn uv_rect_spec(glyph: u32, layout: AtlasLayout) -> UvRect {
    let col = cell_col(glyph, layout);
    let row = cell_row(glyph, layout);
    let u0 = Rat { num: col as i64, den: layout.columns as i64 };
    let u1 = Rat { num: (col + 1) as i64, den: layout.columns as i64 };
    let v0 = Rat { num: row as i64, den: layout.rows as i64 };
    let v1 = Rat { num: (row + 1) as i64, den: layout.rows as i64 };
    UvRect {
        top_left: Uv { u: u0, v: v0 },
        bottom_left: Uv { u: u0, v: v1 },
        bottom_right: Uv { u: u1, v: v1 },
        top_right: Uv { u: u1, v: v0 },
    }
}

/// Maps a glyph id to the UV corners of its atlas cell, in the order
/// top-left, bottom-left, bottom-right, top-right. Total over all glyph ids:
/// an id outside the grid uses the fallback cell.
pub fn glyph_to_uv_rect(glyph: u32, layout: &AtlasLayout) -> (r: UvRect)
    requires
        layout.wf(),
    ensures
        r == uv_rect_spec(glyph, *layout),
        r.wf(),
{
    proof {
        assert((layout.columns as u64) * (layout.rows as u64) == layout.cell_count()
            && layout.cell_count() <= u64::MAX) by (nonlinear_arith)
            requires
                layout.columns <= u32::MAX,
                layout.rows <= u32::MAX,
        ;
    }
    let count: u64 = (layout.columns as u64) * (layout.rows as u64);
    let cell: u32 = if (glyph as u64) < count {
        glyph
    } else {
        0
    };
    let row: u32 = cell / layout.columns;
    let col: u32 = cell % layout.columns;
    proof {
        assert(row == cell_row(glyph, *layout));
        assert(col == cell_col(glyph, *layout));
        assert(col + 1 <= layout.columns && row + 1 <= layout.rows) by (nonlinear_arith)
            requires
                layout.columns > 0,
                layout.rows > 0,
                row == (cell as int) / (layout.columns as int),
                col == (cell as int) % (layout.columns as int),
                cell < layout.cell_count() || cell == 0,
                layout.cell_count() == (layout.columns as int) * (layout.rows as int),
        ;
    }
    let u0 = Rat { num: col as i64, den: layout.columns as i64 };
    let u1 = Rat { num: (col as i64) + 1, den: layout.columns as i64 };
    let v0 = Rat { num: row as i64, den: layout.rows as i64 };
    let v1 = Rat { num: (row as i64) + 1, den: layout.rows as i64 };
    UvRect {
        top_left: Uv { u: u0, v: v0 },
        bottom_left: Uv { u: u0, v: v1 },
        bottom_right: Uv { u: u1, v: v1 },
        top_right: Uv { u: u1, v: v0 },
    }
}

} // verus!
