//! The mathematical model of one buffer of tiles together with its shape.

use crate::tile::Tile;
use vstd::prelude::*;

verus! {

/// One buffer of the world as contracts see it: its dimensions and its tiles
/// in column-major order, so that the cell `(x, y)` lies at `x * height + y`.
///
/// Rows are numbered downwards: row `0` is the top of the world and a larger
/// `y` lies lower.
pub struct Plane {
    pub width: nat,
    pub height: nat,
    pub tiles: Seq<Tile>,
}

impl Plane {
    /// The shape is not degenerate and the buffer holds one tile per cell.
    pub open spec fn wf(self) -> bool {
        &&& self.width > 0
        &&& self.height > 0
        &&& self.tiles.len() == self.width * self.height
    }

    /// The coordinates address a cell of the plane.
    pub open spec fn contains(self, x: int, y: int) -> bool {
        0 <= x < self.width && 0 <= y < self.height
    }

    /// The linear offset of a cell.
    pub open spec fn offset(self, x: int, y: int) -> int {
        x * self.height + y
    }

    /// The tile of a cell.
    pub open spec fn at(self, x: int, y: int) -> Tile {
        self.tiles[self.offset(x, y)]
    }

    /// The cell lies on none of the four walls.
    pub open spec fn interior(self, x: int, y: int) -> bool {
        0 < x < self.width - 1 && 0 < y < self.height - 1
    }

    /// The cell lies on one of the four walls.
    pub open spec fn on_wall(self, x: int, y: int) -> bool {
        self.contains(x, y) && !self.interior(x, y)
    }

    /// The plane with the tile of one cell replaced.
    pub open spec fn with_tile(self, x: int, y: int, tile: Tile) -> Plane {
        Plane { tiles: self.tiles.update(self.offset(x, y), tile), ..self }
    }

    /// The offsets of the cells of a plane are exactly the indices of its
    /// buffer, and each column occupies a block of `height` of them.
    pub proof fn lemma_offset_in_bounds(self, x: int, y: int)
        requires
            self.wf(),
            self.contains(x, y),
        ensures
            0 <= x * self.height,
            x * self.height + self.height <= self.tiles.len(),
            0 <= self.offset(x, y) < self.tiles.len(),
    {
        let h = self.height as int;
        let w = self.width as int;
        assert(0 <= x * h && x * h + h <= w * h) by (nonlinear_arith)
            requires
                0 <= x < w,
                0 < h,
        ;
    }

    /// Two cells share an offset only if they are the same cell.
    pub proof fn lemma_offset_injective(self, x1: int, y1: int, x2: int, y2: int)
        requires
            self.wf(),
            self.contains(x1, y1),
            self.contains(x2, y2),
            self.offset(x1, y1) == self.offset(x2, y2),
        ensures
            x1 == x2,
            y1 == y2,
    {
        let h = self.height as int;
        assert(x1 == x2) by (nonlinear_arith)
            requires
                0 <= y1 < h,
                0 <= y2 < h,
                x1 * h + y1 == x2 * h + y2,
        ;
    }

    /// Replacing the tile of one cell leaves every other cell as it was.
    pub proof fn lemma_with_tile(self, x: int, y: int, tile: Tile)
        requires
            self.wf(),
            self.contains(x, y),
        ensures
            self.with_tile(x, y, tile).wf(),
            forall|u: int, v: int| #[trigger]
                self.contains(u, v) ==> self.with_tile(x, y, tile).at(u, v) == (if u == x && v
                    == y {
                    tile
                } else {
                    self.at(u, v)
                }),
    {
        self.lemma_offset_in_bounds(x, y);
        assert forall|u: int, v: int| #[trigger] self.contains(u, v) implies self.with_tile(
            x,
            y,
            tile,
        ).at(u, v) == (if u == x && v == y {
            tile
        } else {
            self.at(u, v)
        }) by {
            self.lemma_offset_in_bounds(u, v);
            if self.offset(u, v) == self.offset(x, y) {
                self.lemma_offset_injective(u, v, x, y);
            }
        }
    }

    /// Every index of the buffer is the offset of exactly one cell, whose
    /// column is the quotient and whose row is the remainder by the height.
    pub proof fn lemma_cell_of_index(self, i: int)
        requires
            self.wf(),
            0 <= i < self.tiles.len(),
        ensures
            self.contains(i / (self.height as int), i % (self.height as int)),
            self.offset(i / (self.height as int), i % (self.height as int)) == i,
    {
        let h = self.height as int;
        let w = self.width as int;
        vstd::arithmetic::div_mod::lemma_fundamental_div_mod(i, h);
        vstd::arithmetic::div_mod::lemma_mod_bound(i, h);
        let q = i / h;
        let r = i % h;
        assert(h * q == q * h) by (nonlinear_arith);
        assert(0 <= q < w) by (nonlinear_arith)
            requires
                0 <= r < h,
                i == q * h + r,
                0 <= i < w * h,
        ;
    }
}

} // verus!
