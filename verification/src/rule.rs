//! The transition rule: what every cell becomes in the next tick.
//!
//! The rule is written from the point of view of the cell that is written.
//! A cell reads any neighbour in the previous plane and decides on its own
//! tile alone, so that all cells can be computed independently of each other.
//!
//! Material moves by exchanging places with the air it displaces:
//!
//! * The four walls never change and take no part in any movement.
//! * Sand and water fall into air directly below. Where that cell is taken
//!   they slide into air diagonally below, to the left before the right.
//! * Water that can neither fall nor slide flows sideways into air of lower
//!   pressure, to the left before the right, and takes the mean of the two
//!   pressures with it.
//! * Where several tiles aim at the same air cell, the one directly above
//!   wins, then the diagonal neighbours and then the level neighbours, each
//!   time the one in the lower column first. A tile that loses stays.
//! * Air that receives nothing gains one unit of pressure from each of its
//!   four direct neighbours of higher pressure, saturating at the maximum.

use crate::plane::Plane;
use crate::tile::Tile;
use vstd::prelude::*;

verus! {

/// The step that a material tile takes in one tick.
#[derive(Clone, Copy, PartialEq, Eq, Structural, Debug)]
pub enum Move {
    Stay,
    Down,
    DownLeft,
    DownRight,
    Left,
    Right,
}

impl Move {
    /// The change of column that the step brings.
    pub open spec fn dx(self) -> int {
        match self {
            Move::Stay | Move::Down => 0,
            Move::DownLeft | Move::Left => -1,
            Move::DownRight | Move::Right => 1,
        }
    }

    /// The change of row that the step brings.
    pub open spec fn dy(self) -> int {
        match self {
            Move::Stay | Move::Left | Move::Right => 0,
            Move::Down | Move::DownLeft | Move::DownRight => 1,
        }
    }

    /// The step runs along a row.
    pub open spec fn is_level(self) -> bool {
        self == Move::Left || self == Move::Right
    }
}

/// The mean of two pressures, rounded down.
pub open spec fn mean_pressure(a: i8, b: i8) -> i8 {
    ((a + b) / 2) as i8
}

/// The material tile as it arrives in the place of the air that it displaces.
/// Water that flowed along a row carries the mean of the two pressures; every
/// other tile arrives unchanged.
pub open spec fn settled(material: Tile, air: Tile, step: Move) -> Tile {
    match (material, air) {
        (Tile::Water { pressure: p }, Tile::Air { pressure: q }) if step.is_level() => Tile::Water {
            pressure: mean_pressure(p, q),
        },
        _ => material,
    }
}

impl Plane {
    /// The cell is interior air: a place that material can move into.
    pub open spec fn open_at(self, x: int, y: int) -> bool {
        self.interior(x, y) && self.at(x, y) is Air
    }

    /// The cell is interior sand or water: a tile that can move.
    pub open spec fn mobile_at(self, x: int, y: int) -> bool {
        self.interior(x, y) && self.at(x, y).is_material()
    }

    /// Water at `(x, y)` is pressed into the open cell `(tx, ty)` of its row.
    pub open spec fn flows_into(self, x: int, y: int, tx: int, ty: int) -> bool {
        &&& self.open_at(tx, ty)
        &&& self.at(x, y) matches Tile::Water { pressure: p }
        &&& self.at(tx, ty) matches Tile::Air { pressure: q }
        &&& p > q
    }

    /// The step that the tile at `(x, y)` aims at, judged by its own
    /// surroundings alone.
    pub open spec fn intent(self, x: int, y: int) -> Move {
        if !self.mobile_at(x, y) {
            Move::Stay
        } else if self.open_at(x, y + 1) {
            Move::Down
        } else if self.open_at(x - 1, y + 1) {
            Move::DownLeft
        } else if self.open_at(x + 1, y + 1) {
            Move::DownRight
        } else if self.flows_into(x, y, x - 1, y) {
            Move::Left
        } else if self.flows_into(x, y, x + 1, y) {
            Move::Right
        } else {
            Move::Stay
        }
    }

    /// The step by which material enters the cell `(x, y)` in this tick, or
    /// `Stay` where nothing enters. Of all tiles that aim at the cell the
    /// first in the fixed order of precedence is chosen.
    pub open spec fn arrival(self, x: int, y: int) -> Move {
        if !self.open_at(x, y) {
            Move::Stay
        } else if self.intent(x, y - 1) == Move::Down {
            Move::Down
        } else if self.intent(x - 1, y - 1) == Move::DownRight {
            Move::DownRight
        } else if self.intent(x + 1, y - 1) == Move::DownLeft {
            Move::DownLeft
        } else if self.intent(x - 1, y) == Move::Right {
            Move::Right
        } else if self.intent(x + 1, y) == Move::Left {
            Move::Left
        } else {
            Move::Stay
        }
    }

    /// The tile at `(x, y)` moves away in this tick: it aims at a cell and is
    /// the one chosen there.
    pub open spec fn departs(self, x: int, y: int) -> bool {
        let m = self.intent(x, y);
        m != Move::Stay && self.arrival(x + m.dx(), y + m.dy()) == m
    }

    /// One if the cell `(x, y)` holds air or water of a pressure above `p`,
    /// else zero.
    pub open spec fn presses(self, x: int, y: int, p: i8) -> int {
        match self.at(x, y).sensed_pressure() {
            Some(q) => if q > p { 1 } else { 0 },
            None => 0,
        }
    }

    /// The number of direct neighbours of `(x, y)` whose pressure exceeds `p`.
    pub open spec fn inflow(self, x: int, y: int, p: i8) -> int {
        self.presses(x, y - 1, p) + self.presses(x - 1, y, p) + self.presses(x + 1, y, p)
            + self.presses(x, y + 1, p)
    }

    /// The air of pressure `p` at `(x, y)` after one step of diffusion.
    pub open spec fn diffused(self, x: int, y: int, p: i8) -> Tile {
        let raised = p + self.inflow(x, y, p);
        Tile::Air { pressure: if raised > i8::MAX { i8::MAX } else { raised as i8 } }
    }

    /// The tile of the cell `(x, y)` after one tick.
    pub open spec fn next_tile(self, x: int, y: int) -> Tile {
        let here = self.at(x, y);
        let out = self.intent(x, y);
        let inn = self.arrival(x, y);
        if self.departs(x, y) {
            self.at(x + out.dx(), y + out.dy())
        } else if inn != Move::Stay {
            settled(self.at(x - inn.dx(), y - inn.dy()), here, inn)
        } else if self.interior(x, y) {
            match here {
                Tile::Air { pressure } => self.diffused(x, y, pressure),
                _ => here,
            }
        } else {
            here
        }
    }

    /// The column `x` after one tick, top to bottom.
    pub open spec fn next_column(self, x: int) -> Seq<Tile> {
        Seq::new(self.height, |y: int| self.next_tile(x, y))
    }

    /// The whole plane after one tick.
    pub open spec fn next(self) -> Plane {
        Plane {
            tiles: Seq::new(
                self.tiles.len(),
                |i: int| self.next_tile(i / (self.height as int), i % (self.height as int)),
            ),
            ..self
        }
    }

    /// A tick keeps the shape of the plane.
    pub proof fn lemma_next_wf(self)
        requires
            self.wf(),
        ensures
            self.next().wf(),
            self.next().width == self.width,
            self.next().height == self.height,
    {
    }

    /// The next plane holds at every cell what the rule gives for that cell.
    pub proof fn lemma_next_at(self, x: int, y: int)
        requires
            self.wf(),
            self.contains(x, y),
        ensures
            self.next().at(x, y) == self.next_tile(x, y),
    {
        let h = self.height as int;
        self.lemma_offset_in_bounds(x, y);
        vstd::arithmetic::div_mod::lemma_fundamental_div_mod_converse(self.offset(x, y), h, x, y);
    }

    /// A buffer whose columns are the next columns of the plane is the buffer
    /// of the next plane.
    pub proof fn lemma_next_from_columns(self, tiles: Seq<Tile>)
        requires
            self.wf(),
            tiles.len() == self.tiles.len(),
            forall|x: int|
                0 <= x < self.width ==> tiles.subrange(
                    x * self.height,
                    x * self.height + self.height,
                ) == #[trigger] self.next_column(x),
        ensures
            tiles == self.next().tiles,
    {
        let h = self.height as int;
        assert forall|i: int| 0 <= i < tiles.len() implies tiles[i] == self.next().tiles[i] by {
            self.lemma_cell_of_index(i);
            let x = i / h;
            let y = i % h;
            self.lemma_offset_in_bounds(x, y);
            let column = tiles.subrange(x * self.height, x * self.height + self.height);
            assert(column[y] == tiles[x * h + y]);
            assert(self.next_column(x)[y] == self.next_tile(x, y));
        }
        assert(tiles =~= self.next().tiles);
    }

    /// The plane after the given number of ticks.
    pub open spec fn after(self, ticks: nat) -> Plane
        decreases ticks,
    {
        if ticks == 0 {
            self
        } else {
            self.after((ticks - 1) as nat).next()
        }
    }
}

} // verus!
