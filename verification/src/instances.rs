//! The grid of cube instances.

use vstd::prelude::*;
use crate::binding::{BindGroupLayout, BindingFamily};

verus! {

/// Rows asked for when nothing else is configured.
pub const DEFAULT_GRID_ROWS: u32 = 4;

/// Columns asked for when nothing else is configured.
pub const DEFAULT_GRID_COLS: u32 = 4;

/// Size in bytes of one 4x4 matrix of 32-bit components.
pub const MATRIX_BYTES: u64 = 64;

/// The translation of one instance, counted in grid steps: the instance is
/// moved by `x` column spacings and `y` row spacings and not at all in depth.
/// It carries no rotation and no scale.
#[derive(Clone, Copy, Debug, PartialEq, Eq, Structural)]
pub struct GridOffset {
    pub x: i64,
    pub y: i64,
}

/// Position in the instance list of the instance in row `i`, column `j`.
pub open spec fn cell_index(i: int, j: int, cols: int) -> int {
    i * cols + j
}

/// Number of instances of a grid request. The row index runs over `0..=rows`,
/// one row more than asked for; the column index over `0..cols`.
pub open spec fn grid_len(rows: int, cols: int) -> int {
    (rows + 1) * cols
}

/// The offset of the instance in row `i`, column `j`: columns are centred on
/// half the row count and rows on half the column count.
pub open spec fn grid_offset(rows: int, cols: int, i: int, j: int) -> GridOffset {
    GridOffset { x: (j - rows / 2) as i64, y: (i - cols / 2) as i64 }
}

/// Whether `cells` is the instance list of a `rows` by `cols` request, row
/// by row.
pub open spec fn is_grid(cells: Seq<GridOffset>, rows: int, cols: int) -> bool {
    &&& cells.len() == grid_len(rows, cols)
    &&& forall|i: int, j: int|
        0 <= i <= rows && 0 <= j < cols ==> #[trigger] cells[cell_index(i, j, cols)] == grid_offset(
            rows,
            cols,
            i,
            j,
        )
}

/// Model-transform storage for a grid of cubes.
#[derive(Debug, PartialEq, Eq)]
pub struct Instances {
    rows: u32,
    cols: u32,
    transformations: Vec<GridOffset>,
}

impl Instances {
    /// The row count that was asked for.
    pub closed spec fn spec_rows(&self) -> u32 {
        self.rows
    }

    /// The column count that was asked for.
    pub closed spec fn spec_cols(&self) -> u32 {
        self.cols
    }

    /// The instances in upload order.
    pub closed spec fn cells(&self) -> Seq<GridOffset> {
        self.transformations@
    }

    /// Whether the instance list is the grid of the request and its length
    /// fits the instance range of a draw. Every value of the type is so.
    pub open spec fn wf(&self) -> bool {
        &&& is_grid(self.cells(), self.spec_rows() as int, self.spec_cols() as int)
        &&& self.cells().len() <= u32::MAX
    }

    #[verifier::type_invariant]
    spec fn inv(&self) -> bool {
        self.wf()
    }

    /// Builds the grid for a request of `rows` by `cols`, or nothing when
    /// the instances would outnumber what one draw can address.
    pub fn new(rows: u32, cols: u32) -> (out: Option<Instances>)
        ensures
            out.is_some() <==> grid_len(rows as int, cols as int) <= u32::MAX,
            out matches Some(grid) ==> {
                &&& grid.wf()
                &&& grid.spec_rows() == rows
                &&& grid.spec_cols() == cols
            },
    {
        assert((rows + 1) * cols <= 0x1_0000_0000 * 0xffff_ffff) by (nonlinear_arith)
            requires
                0 <= rows + 1 <= 0x1_0000_0000,
                0 <= cols <= 0xffff_ffff,
        ;
        let total: u64 = (rows as u64 + 1) * (cols as u64);
        if total > u32::MAX as u64 {
            return None;
        }
        let half_rows: i64 = (rows / 2) as i64;
        let half_cols: i64 = (cols / 2) as i64;
        let mut transformations: Vec<GridOffset> = Vec::new();
        let mut i: u32 = 0;
        loop
            invariant_except_break
                i <= rows,
                transformations@.len() == i * cols,
            invariant
                half_rows == rows / 2,
                half_cols == cols / 2,
                forall|a: int, b: int|
                    0 <= a < i && 0 <= b < cols ==> #[trigger] transformations@[cell_index(
                        a,
                        b,
                        cols as int,
                    )] == grid_offset(rows as int, cols as int, a, b),
            ensures
                i == rows,
                transformations@.len() == (rows + 1) * cols,
                forall|a: int, b: int|
                    0 <= a <= rows && 0 <= b < cols ==> #[trigger] transformations@[cell_index(
                        a,
                        b,
                        cols as int,
                    )] == grid_offset(rows as int, cols as int, a, b),
            decreases rows - i,
        {
            let mut j: u32 = 0;
            while j < cols
                invariant
                    i <= rows,
                    j <= cols,
                    half_rows == rows / 2,
                    half_cols == cols / 2,
                    transformations@.len() == i * cols + j,
                    forall|a: int, b: int|
                        0 <= a < i && 0 <= b < cols ==> #[trigger] transformations@[cell_index(
                            a,
                            b,
                            cols as int,
                        )] == grid_offset(rows as int, cols as int, a, b),
                    forall|b: int|
                        0 <= b < j ==> #[trigger] transformations@[cell_index(
                            i as int,
                            b,
                            cols as int,
                        )] == grid_offset(rows as int, cols as int, i as int, b),
                decreases cols - j,
            {
                let ghost before = transformations@;
                let x: i64 = j as i64 - half_rows;
                let y: i64 = i as i64 - half_cols;
                transformations.push(GridOffset { x, y });
                proof {
                    assert forall|a: int, b: int| 0 <= a < i && 0 <= b < cols implies cell_index(
                        a,
                        b,
                        cols as int,
                    ) < before.len() by {
                        row_starts_ordered(a, i as int, cols as int);
                    }
                    assert(before.len() == cell_index(i as int, j as int, cols as int));
                }
                j += 1;
            }
            proof {
                assert((i + 1) * cols == i * cols + cols) by (nonlinear_arith);
            }
            if i == rows {
                break ;
            }
            i += 1;
        }
        Some(Instances { rows, cols, transformations })
    }

    /// The schema of the instance bind group: one read-only storage buffer
    /// for the vertex stage.
    pub fn layout() -> (out: BindGroupLayout)
        ensures
            out.family == BindingFamily::Instances,
            out.entries@ == BindingFamily::Instances.layout_entries(),
    {
        BindingFamily::Instances.layout()
    }

    /// Number of instances: the upper bound of the instance range of a draw.
    pub fn count(&self) -> (out: u32)
        ensures
            self.wf(),
            out == self.cells().len(),
            out == grid_len(self.spec_rows() as int, self.spec_cols() as int),
    {
        proof {
            use_type_invariant(self);
        }
        self.transformations.len() as u32
    }

    /// The row count that was asked for.
    pub fn rows(&self) -> (out: u32)
        ensures
            out == self.spec_rows(),
    {
        self.rows
    }

    /// The column count that was asked for.
    pub fn cols(&self) -> (out: u32)
        ensures
            out == self.spec_cols(),
    {
        self.cols
    }

    /// The instances in upload order.
    pub fn transformations(&self) -> (out: &Vec<GridOffset>)
        ensures
            out@ == self.cells(),
    {
        &self.transformations
    }

    /// Size in bytes of the storage buffer: one matrix per instance.
    pub fn buffer_size(&self) -> (out: u64)
        ensures
            out == self.cells().len() * MATRIX_BYTES,
    {
        proof {
            use_type_invariant(self);
        }
        self.transformations.len() as u64 * MATRIX_BYTES
    }
}

/// A cell of an earlier row comes before the start of any later row.
proof fn row_starts_ordered(a: int, i: int, cols: int)
    requires
        0 <= a < i,
        0 <= cols,
    ensures
        forall|b: int| 0 <= b < cols ==> cell_index(a, b, cols) < i * cols,
{
    assert((a + 1) * cols <= i * cols) by (nonlinear_arith)
        requires
            a + 1 <= i,
            0 <= cols,
    ;
    assert((a + 1) * cols == a * cols + cols) by (nonlinear_arith);
}

/// A grid request yields one instance for each column of each row index from
/// zero up to and including the row count.
pub proof fn grid_has_extra_row(grid: Instances)
    requires
        grid.wf(),
    ensures
        grid.cells().len() == grid.spec_rows() * grid.spec_cols() + grid.spec_cols(),
{
    let r = grid.spec_rows() as int;
    let c = grid.spec_cols() as int;
    assert((r + 1) * c == r * c + c) by (nonlinear_arith);
}

} // verus!
