//! The demo floor grid: which cells a `grid_size` × `grid_size` grid holds,
//! in the order they are drawn, and which of them are dimmed to form the
//! checkerboard. The caller turns each cell into a floor quad at
//! `(x + 1/2, y + 1/2)` with the cell's shade and pushes it into a draw
//! scope.

use vstd::prelude::*;

verus! {

/// One cell of the demo grid.
#[derive(Clone, Copy, Debug, PartialEq)]
pub struct GridCell {
    /// Column of the cell.
    pub x: u32,
    /// Row of the cell.
    pub y: u32,
    /// Whether the cell is drawn with the darker checkerboard shade.
    pub dim: bool,
}

/// The cell drawn `k`-th in a grid of the given size: row-major order, every
/// second cell dimmed.
pub open spec fn grid_cell_at(grid_size: u32, k: int) -> GridCell {
    GridCell {
        x: (k % (grid_size as int)) as u32,
        y: (k / (grid_size as int)) as u32,
        dim: k % 2 == 1,
    }
}

/// All cells of the grid in drawing order: row-major, `grid_size` squared of
/// them, checkerboard-dimmed.
pub fn grid_cells(grid_size: u32) -> (r: Vec<GridCell>)
    requires
        (grid_size as int) * (grid_size as int) <= usize::MAX,
    ensures
        r@.len() == (grid_size as int) * (grid_size as int),
        forall|k: int| 0 <= k < r@.len() ==> r@[k] == grid_cell_at(grid_size, k),
{
    let mut out: Vec<GridCell> = Vec::new();
    let mut y: u32 = 0;
    while y < grid_size
        invariant
            y <= grid_size,
            out@.len() == (y as int) * (grid_size as int),
            forall|k: int| 0 <= k < out@.len() ==> out@[k] == grid_cell_at(grid_size, k),
        decreases grid_size - y,
    {
        let mut x: u32 = 0;
        while x < grid_size
            invariant
                y < grid_size,
                x <= grid_size,
                out@.len() == (y as int) * (grid_size as int) + (x as int),
                forall|k: int| 0 <= k < out@.len() ==> out@[k] == grid_cell_at(grid_size, k),
            decreases grid_size - x,
        {
            let ghost k: int = out@.len() as int;
            let dim: bool = out.len() % 2 == 1;
            out.push(GridCell { x, y, dim });
            proof {
                vstd::arithmetic::div_mod::lemma_fundamental_div_mod_converse(
                    k,
                    grid_size as int,
                    y as int,
                    x as int,
                );
                assert(out@[k] == grid_cell_at(grid_size, k));
            }
            x = x + 1;
        }
        proof {
            assert((y as int) * (grid_size as int) + (grid_size as int) == ((y as int) + 1) * (
            grid_size as int)) by (nonlinear_arith);
        }
        y = y + 1;
    }
    out
}

} // verus!
