//! A read-only snapshot of one buffer, as it is handed to the update kernel
//! and to the sinks that display it.

use crate::plane::Plane;
use crate::tile::Tile;
use vstd::prelude::*;

verus! {

/// A borrowed buffer of tiles together with its dimensions.
///
/// A frame never owns its tiles: it lives no longer than the borrow of the
/// buffer that it was taken from.
#[derive(Clone, Copy, Debug)]
pub struct Frame<'a> {
    /// The number of columns.
    pub width: usize,
    /// The number of rows.
    pub height: usize,
    /// The tiles in column-major order.
    pub tiles: &'a [Tile],
}

impl<'a> View for Frame<'a> {
    type V = Plane;

    open spec fn view(&self) -> Plane {
        Plane { width: self.width as nat, height: self.height as nat, tiles: self.tiles@ }
    }
}

impl<'a> Frame<'a> {
    /// The frame has a proper shape and one tile per cell.
    pub open spec fn wf(&self) -> bool {
        self@.wf()
    }

    /// Views a slice of tiles in column-major order as a frame of the given
    /// shape. There is no frame where a dimension is zero or where the slice
    /// does not hold exactly one tile per cell.
    pub fn new(width: usize, height: usize, tiles: &'a [Tile]) -> (r: Option<Frame<'a>>)
        ensures
            r is Some <==> width > 0 && height > 0 && tiles@.len() == width * height,
            r matches Some(f) ==> f.wf() && f@ == (Plane {
                width: width as nat,
                height: height as nat,
                tiles: tiles@,
            }),
    {
        if width == 0 || height == 0 {
            return None;
        }
        proof {
            vstd::slice::axiom_spec_len(tiles);
        }
        match width.checked_mul(height) {
            Some(cells) => {
                if tiles.len() == cells {
                    Some(Frame { width, height, tiles })
                } else {
                    None
                }
            },
            None => None,
        }
    }

    /// The number of columns.
    pub fn width(&self) -> (w: usize)
        ensures
            w == self@.width,
    {
        self.width
    }

    /// The number of rows.
    pub fn height(&self) -> (h: usize)
        ensures
            h == self@.height,
    {
        self.height
    }

    /// The tiles in column-major order.
    pub fn tiles(&self) -> (t: &'a [Tile])
        ensures
            t@ == self@.tiles,
    {
        self.tiles
    }

    /// The tile of the cell `(x, y)`.
    pub fn tile(&self, x: usize, y: usize) -> (t: Tile)
        requires
            self.wf(),
            self@.contains(x as int, y as int),
        ensures
            t == self@.at(x as int, y as int),
    {
        proof {
            vstd::slice::axiom_spec_len(self.tiles);
            self@.lemma_offset_in_bounds(x as int, y as int);
        }
        self.tiles[x * self.height + y]
    }

    /// Tells whether the cell lies on none of the four walls.
    pub fn is_interior(&self, x: usize, y: usize) -> (r: bool)
        requires
            self.wf(),
        ensures
            r == self@.interior(x as int, y as int),
    {
        0 < x && x < self.width - 1 && 0 < y && y < self.height - 1
    }
}

} // verus!
