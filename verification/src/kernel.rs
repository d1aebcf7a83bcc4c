//! The update kernel: the transition rule in executable form, one column at a
//! time, and all columns in parallel.
//!
//! The kernel reads the whole previous frame and writes the column that it
//! was handed, nothing else.

use crate::frame::Frame;
use crate::rule::{mean_pressure, settled, Move};
use crate::tile::Tile;
use rayon::iter::{IndexedParallelIterator, ParallelIterator};
use rayon::slice::ParallelSliceMut;
use vstd::prelude::*;

verus! {

impl Move {
    /// The cell that a tile at `(x, y)` reaches by this step.
    pub fn target(self, x: usize, y: usize) -> (r: (usize, usize))
        requires
            0 < x < usize::MAX,
            y < usize::MAX,
        ensures
            r.0 == x + self.dx(),
            r.1 == y + self.dy(),
    {
        match self {
            Move::Stay => (x, y),
            Move::Down => (x, y + 1),
            Move::DownLeft => (x - 1, y + 1),
            Move::DownRight => (x + 1, y + 1),
            Move::Left => (x - 1, y),
            Move::Right => (x + 1, y),
        }
    }

    /// The cell from which a tile reaches `(x, y)` by this step.
    pub fn origin(self, x: usize, y: usize) -> (r: (usize, usize))
        requires
            0 < x < usize::MAX,
            0 < y,
        ensures
            r.0 == x - self.dx(),
            r.1 == y - self.dy(),
    {
        match self {
            Move::Stay => (x, y),
            Move::Down => (x, y - 1),
            Move::DownLeft => (x + 1, y - 1),
            Move::DownRight => (x - 1, y - 1),
            Move::Left => (x + 1, y),
            Move::Right => (x - 1, y),
        }
    }
}

/// The mean of two pressures, rounded down.
pub fn mean_of(a: i8, b: i8) -> (m: i8)
    ensures
        m == mean_pressure(a, b),
{
    let lifted: i16 = (a as i16 + 128) + (b as i16 + 128);
    let half: i16 = lifted / 2;
    (half - 128) as i8
}

/// The material tile as it arrives in the place of the air that it displaces.
pub fn settle(material: Tile, air: Tile, step: Move) -> (t: Tile)
    ensures
        t == settled(material, air, step),
{
    match (material, air, step) {
        (Tile::Water { pressure: p }, Tile::Air { pressure: q }, Move::Left) => Tile::Water {
            pressure: mean_of(p, q),
        },
        (Tile::Water { pressure: p }, Tile::Air { pressure: q }, Move::Right) => Tile::Water {
            pressure: mean_of(p, q),
        },
        _ => material,
    }
}

impl<'a> Frame<'a> {
    /// Tells whether the cell is interior air.
    pub fn is_open(&self, x: usize, y: usize) -> (r: bool)
        requires
            self.wf(),
            self@.contains(x as int, y as int),
        ensures
            r == self@.open_at(x as int, y as int),
    {
        self.is_interior(x, y) && self.tile(x, y).is_air()
    }

    /// Tells whether water at `(x, y)` is pressed into the cell `(tx, ty)`.
    pub fn flows_into(&self, x: usize, y: usize, tx: usize, ty: usize) -> (r: bool)
        requires
            self.wf(),
            self@.contains(x as int, y as int),
            self@.contains(tx as int, ty as int),
        ensures
            r == self@.flows_into(x as int, y as int, tx as int, ty as int),
    {
        if !self.is_interior(tx, ty) {
            return false;
        }
        match (self.tile(x, y), self.tile(tx, ty)) {
            (Tile::Water { pressure: p }, Tile::Air { pressure: q }) => p > q,
            _ => false,
        }
    }

    /// The step that the tile at `(x, y)` aims at.
    pub fn intent(&self, x: usize, y: usize) -> (m: Move)
        requires
            self.wf(),
            self@.contains(x as int, y as int),
        ensures
            m == self@.intent(x as int, y as int),
    {
        if !self.is_interior(x, y) || self.tile(x, y).is_air() {
            Move::Stay
        } else if self.is_open(x, y + 1) {
            Move::Down
        } else if self.is_open(x - 1, y + 1) {
            Move::DownLeft
        } else if self.is_open(x + 1, y + 1) {
            Move::DownRight
        } else if self.flows_into(x, y, x - 1, y) {
            Move::Left
        } else if self.flows_into(x, y, x + 1, y) {
            Move::Right
        } else {
            Move::Stay
        }
    }

    /// The step by which material enters the cell `(x, y)`, or `Stay`.
    pub fn arrival(&self, x: usize, y: usize) -> (m: Move)
        requires
            self.wf(),
            self@.contains(x as int, y as int),
        ensures
            m == self@.arrival(x as int, y as int),
    {
        if !self.is_open(x, y) {
            Move::Stay
        } else if self.intent(x, y - 1) == Move::Down {
            Move::Down
        } else if self.intent(x - 1, y - 1) == Move::DownRight {
            Move::DownRight
        } else if self.intent(x + 1, y - 1) == Move::DownLeft {
            Move::DownLeft
        } else if self.intent(x - 1, y) == Move::Right {
            Move::Right
        } else if self.intent(x + 1, y) == Move::Left {
            Move::Left
        } else {
            Move::Stay
        }
    }

    /// One if the cell holds air or water of a pressure above `p`, else zero.
    pub fn presses(&self, x: usize, y: usize, p: i8) -> (n: i16)
        requires
            self.wf(),
            self@.contains(x as int, y as int),
        ensures
            n == self@.presses(x as int, y as int, p),
    {
        match self.tile(x, y) {
            Tile::Air { pressure } => if pressure > p { 1 } else { 0 },
            Tile::Water { pressure } => if pressure > p { 1 } else { 0 },
            Tile::Sand { .. } => 0,
        }
    }

    /// The air of pressure `p` at the interior cell `(x, y)` after one step
    /// of diffusion.
    pub fn diffuse(&self, x: usize, y: usize, p: i8) -> (t: Tile)
        requires
            self.wf(),
            self@.interior(x as int, y as int),
        ensures
            t == self@.diffused(x as int, y as int, p),
    {
        let inflow: i16 = self.presses(x, y - 1, p) + self.presses(x - 1, y, p) + self.presses(
            x + 1,
            y,
            p,
        ) + self.presses(x, y + 1, p);
        let raised: i16 = p as i16 + inflow;
        if raised > 127 {
            Tile::Air { pressure: 127 }
        } else {
            Tile::Air { pressure: raised as i8 }
        }
    }

    /// The tile of the cell `(x, y)` after one tick.
    pub fn next_tile(&self, x: usize, y: usize) -> (t: Tile)
        requires
            self.wf(),
            self@.contains(x as int, y as int),
        ensures
            t == self@.next_tile(x as int, y as int),
    {
        let here = self.tile(x, y);
        if !self.is_interior(x, y) {
            return here;
        }
        match here {
            Tile::Air { pressure } => {
                let inn = self.arrival(x, y);
                if inn == Move::Stay {
                    self.diffuse(x, y, pressure)
                } else {
                    let (sx, sy) = inn.origin(x, y);
                    settle(self.tile(sx, sy), here, inn)
                }
            },
            _ => {
                let out = self.intent(x, y);
                if out == Move::Stay {
                    here
                } else {
                    let (tx, ty) = out.target(x, y);
                    if self.arrival(tx, ty) == out {
                        self.tile(tx, ty)
                    } else {
                        here
                    }
                }
            },
        }
    }
}

/// Computes one column of the next tick from the previous frame.
///
/// The column is the only memory that is written, and every cell of it is.
pub fn update_column(frame: Frame<'_>, x: usize, column: &mut [Tile])
    requires
        frame.wf(),
        x < frame@.width,
        old(column)@.len() == frame@.height,
    ensures
        final(column)@ == frame@.next_column(x as int),
{
    let height = frame.height();
    let mut y: usize = 0;
    while y < height
        invariant
            frame.wf(),
            x < frame@.width,
            height == frame@.height,
            column@.len() == height,
            y <= height,
            forall|k: int| 0 <= k < y ==> column@[k] == frame@.next_tile(x as int, k),
        decreases height - y,
    {
        column[y] = frame.next_tile(x, y);
        y += 1;
    }
    assert(column@ =~= frame@.next_column(x as int));
}

/// Runs `update_column` on every column of `current`, in parallel.
///
/// Calls rayon's `par_chunks_mut`, `enumerate` and `for_each`. The contract
/// claims of them that the buffer is cut into consecutive chunks of one
/// column each, which do not overlap, that each chunk is paired with its
/// position, and that the closure has run exactly once on every pair when the
/// call returns. What the closure leaves in a chunk is what the contract of
/// `update_column` states.
#[verifier::external_body]
pub(crate) fn update_all_columns(frame: Frame<'_>, current: &mut Vec<Tile>)
    requires
        frame.wf(),
        old(current)@.len() == frame@.tiles.len(),
    ensures
        final(current)@.len() == old(current)@.len(),
        forall|x: int|
            0 <= x < frame@.width ==> final(current)@.subrange(
                x * frame@.height,
                x * frame@.height + frame@.height,
            ) == #[trigger] frame@.next_column(x),
{
    current.par_chunks_mut(frame.height).enumerate().for_each(
        |(x, column)| update_column(frame, x, column),
    );
}

} // verus!
