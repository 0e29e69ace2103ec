//! Terrain bitmaps: a 2D grid of per-cell land-type codes, generic in the
//! code width (`u8` for the coarse preview, `u32` for the full game terrain).

use vstd::prelude::*;

verus! {

/// Mathematical value of a terrain bitmap: its dimensions and the cell codes
/// in row-major order.
pub struct LandModel<T> {
    pub width: int,
    pub height: int,
    pub cells: Seq<T>,
}

impl<T> LandModel<T> {
    /// Structural validity: non-negative dimensions and exactly one code per
    /// cell.
    pub open spec fn wf(self) -> bool {
        &&& 0 <= self.width
        &&& 0 <= self.height
        &&& self.cells.len() == self.width * self.height
    }

    /// Code stored at cell `(x, y)`.
    pub open spec fn cell(self, x: int, y: int) -> T {
        self.cells[y * self.width + x]
    }
}

/// Executable terrain bitmap, stored row-major.
pub struct Land<T> {
    pub width: usize,
    pub height: usize,
    pub cells: Vec<T>,
}

impl<T> View for Land<T> {
    type V = LandModel<T>;

    open spec fn view(&self) -> LandModel<T> {
        LandModel { width: self.width as int, height: self.height as int, cells: self.cells@ }
    }
}

/// View of an optional bitmap slot.
pub open spec fn view_opt_land<T>(slot: Option<Land<T>>) -> Option<LandModel<T>> {
    match slot {
        Some(land) => Some(land@),
        None => None,
    }
}

impl<T: Copy> Land<T> {
    /// Read the code at cell `(x, y)`.
    pub fn get(&self, x: usize, y: usize) -> (code: T)
        requires
            self@.wf(),
            x < self@.width,
            y < self@.height,
        ensures
            code == self@.cell(x as int, y as int),
    {
        let n = self.cells.len();
        proof {
            assert(y * self.width + x < self.width * self.height) by (nonlinear_arith)
                requires
                    x < self.width,
                    y < self.height,
            ;
            assert(y * self.width + x < n);
        }
        self.cells[y * self.width + x]
    }
}

} // verus!
