//! The sprite-sheet resource: one image subdivided into a grid of equally
//! sized cells, addressed by a linear index in row-major order.

use vstd::prelude::*;

verus! {

/// Side length of one atlas cell, in pixels.
pub const ATLAS_CELL_SIZE_PX: u32 = 32;

/// Number of cell columns in the demo's atlas.
pub const ATLAS_COLUMNS: u32 = 10;

/// Number of cell rows in the demo's atlas.
pub const ATLAS_ROWS: u32 = 10;

/// The pixel rectangle of one atlas cell; `min` is inclusive, `max` exclusive.
#[derive(Clone, Copy, PartialEq, Eq, Structural, Debug)]
pub struct CellRect {
    pub min_x: u32,
    pub min_y: u32,
    pub max_x: u32,
    pub max_y: u32,
}

/// A grid layout over one image: equally sized cells, indexed linearly row by
/// row from the top-left cell.
#[derive(Clone, Copy, PartialEq, Eq, Structural, Debug)]
pub struct GridLayout {
    pub cell_width: u32,
    pub cell_height: u32,
    pub columns: u32,
    pub rows: u32,
}

impl GridLayout {
    /// A layout is well formed when it has at least one cell and the whole
    /// grid fits into pixel and index coordinates.
    pub open spec fn wf(self) -> bool {
        &&& 1 <= self.cell_width
        &&& 1 <= self.cell_height
        &&& 1 <= self.columns
        &&& 1 <= self.rows
        &&& self.columns * self.cell_width <= u32::MAX
        &&& self.rows * self.cell_height <= u32::MAX
        &&& self.columns * self.rows <= u32::MAX
    }

    /// Number of cells in the grid.
    pub open spec fn cell_count_spec(self) -> int {
        self.columns * self.rows
    }

    /// Column of the cell with linear index `i`.
    pub open spec fn cell_col(self, i: int) -> int {
        i % (self.columns as int)
    }

    /// Row of the cell with linear index `i`.
    pub open spec fn cell_row(self, i: int) -> int {
        i / (self.columns as int)
    }

    /// Builds a grid of `columns` by `rows` cells of `cell_width` by
    /// `cell_height` pixels.
    pub fn from_grid(cell_width: u32, cell_height: u32, columns: u32, rows: u32) -> (l: GridLayout)
        requires
            1 <= cell_width,
            1 <= cell_height,
            1 <= columns,
            1 <= rows,
            columns * cell_width <= u32::MAX,
            rows * cell_height <= u32::MAX,
            columns * rows <= u32::MAX,
        ensures
            l.cell_width == cell_width,
            l.cell_height == cell_height,
            l.columns == columns,
            l.rows == rows,
            l.wf(),
    {
        GridLayout { cell_width, cell_height, columns, rows }
    }

    /// Number of cells in the grid.
    pub fn cell_count(&self) -> (n: u32)
        requires
            self.wf(),
        ensures
            n as int == self.cell_count_spec(),
    {
        self.columns * self.rows
    }

    /// The pixel rectangle of the cell with linear index `index`, or `None`
    /// when the index lies outside the grid.
    pub fn cell_rect(&self, index: u32) -> (r: Option<CellRect>)
        requires
            self.wf(),
        ensures
            r is Some <==> (index as int) < self.cell_count_spec(),
            r matches Some(c) ==> {
                &&& c.min_x as int == self.cell_col(index as int) * self.cell_width
                &&& c.min_y as int == self.cell_row(index as int) * self.cell_height
                &&& c.max_x as int == c.min_x + self.cell_width
                &&& c.max_y as int == c.min_y + self.cell_height
            },
    {
        let count = self.cell_count();
        if index < count {
            let col = index % self.columns;
            let row = index / self.columns;
            proof {
                assert(col as int * self.cell_width as int + self.cell_width as int
                    <= self.columns as int * self.cell_width as int) by (nonlinear_arith)
                    requires
                        (col as int) < self.columns as int,
                        self.cell_width as int >= 1,
                ;
                assert((row as int) < self.rows as int) by (nonlinear_arith)
                    requires
                        (index as int) < self.columns as int * self.rows as int,
                        self.columns as int >= 1,
                        row as int == index as int / self.columns as int,
                ;
                assert(row as int * self.cell_height as int + self.cell_height as int
                    <= self.rows as int * self.cell_height as int) by (nonlinear_arith)
                    requires
                        (row as int) < self.rows as int,
                        self.cell_height as int >= 1,
                ;
            }
            let min_x = col * self.cell_width;
            let min_y = row * self.cell_height;
            Some(
                CellRect {
                    min_x,
                    min_y,
                    max_x: min_x + self.cell_width,
                    max_y: min_y + self.cell_height,
                },
            )
        } else {
            None
        }
    }
}

/// The process-wide sprite-sheet resource: the grid layout of the one texture
/// atlas the demo draws from.  It is created once at startup and read-only
/// thereafter.
#[derive(Clone, Copy, PartialEq, Eq, Structural, Debug)]
pub struct SpriteSheet {
    pub layout: GridLayout,
}

impl SpriteSheet {
    /// The demo's sheet: a 10 by 10 grid of 32 by 32 pixel cells.
    pub fn new() -> (s: SpriteSheet)
        ensures
            s.layout.cell_width == ATLAS_CELL_SIZE_PX,
            s.layout.cell_height == ATLAS_CELL_SIZE_PX,
            s.layout.columns == ATLAS_COLUMNS,
            s.layout.rows == ATLAS_ROWS,
            s.layout.wf(),
    {
        SpriteSheet {
            layout: GridLayout::from_grid(
                ATLAS_CELL_SIZE_PX,
                ATLAS_CELL_SIZE_PX,
                ATLAS_COLUMNS,
                ATLAS_ROWS,
            ),
        }
    }
}

/// Relative path of the bitmap the sheet is decoded from.
pub fn texture_path() -> (p: &'static str)
    ensures
        p@ == "textures/sprite_sheet.png"@,
{
    "textures/sprite_sheet.png"
}

} // verus!
