//! The double-buffered grid: the frame of the last completed tick and the
//! scratch buffer that the next tick is written into.

use crate::frame::Frame;
use crate::kernel::{update_all_columns, update_column};
use crate::plane::Plane;
use crate::tile::Tile;
use vstd::prelude::*;

verus! {

/// Names one of the two buffers of a grid.
#[derive(Clone, Copy, PartialEq, Eq, Structural, Debug)]
pub enum Buffer {
    /// The frame of the last completed tick. The kernel only reads it.
    Previous,
    /// The scratch buffer that the kernel writes.
    Current,
}

/// Why a grid could not be made.
#[derive(Clone, Copy, PartialEq, Eq, Structural, Debug)]
pub enum GridError {
    /// A dimension is zero, or the number of cells is not a machine integer.
    InvalidDimensions,
}

/// The tile that a fresh grid holds at `(x, y)`: dry sand on the left and top
/// walls, still water on the right and bottom walls, still air inside. Where
/// walls meet, the side walls cover the top and the bottom, and the right wall
/// covers the left.
pub open spec fn fresh_tile(width: nat, height: nat, x: int, y: int) -> Tile {
    if x == width - 1 {
        Tile::still_water()
    } else if x == 0 {
        Tile::dry_sand()
    } else if y == height - 1 {
        Tile::still_water()
    } else if y == 0 {
        Tile::dry_sand()
    } else {
        Tile::still_air()
    }
}

impl Plane {
    /// The plane is still air enclosed by the walls of a fresh grid.
    pub open spec fn is_fresh(self) -> bool {
        forall|x: int, y: int| #[trigger]
            self.contains(x, y) ==> self.at(x, y) == fresh_tile(self.width, self.height, x, y)
    }
}

/// A grid as contracts see it.
pub struct GridView {
    pub width: nat,
    pub height: nat,
    pub previous: Seq<Tile>,
    pub current: Seq<Tile>,
}

impl GridView {
    /// The shape is not degenerate and each buffer holds one tile per cell.
    pub open spec fn wf(self) -> bool {
        &&& self.width > 0
        &&& self.height > 0
        &&& self.previous.len() == self.width * self.height
        &&& self.current.len() == self.width * self.height
    }

    /// One buffer together with the shape of the grid.
    pub open spec fn plane(self, buffer: Buffer) -> Plane {
        Plane {
            width: self.width,
            height: self.height,
            tiles: match buffer {
                Buffer::Previous => self.previous,
                Buffer::Current => self.current,
            },
        }
    }

    /// The frame that sinks are shown: the previous buffer.
    pub open spec fn frame(self) -> Plane {
        self.plane(Buffer::Previous)
    }

    /// The grid with the tile of one cell of one buffer replaced.
    pub open spec fn written(self, buffer: Buffer, x: int, y: int, tile: Tile) -> GridView {
        match buffer {
            Buffer::Previous => GridView {
                previous: self.plane(buffer).with_tile(x, y, tile).tiles,
                ..self
            },
            Buffer::Current => GridView {
                current: self.plane(buffer).with_tile(x, y, tile).tiles,
                ..self
            },
        }
    }

    /// The grid with the roles of its two buffers exchanged.
    pub open spec fn swapped(self) -> GridView {
        GridView { previous: self.current, current: self.previous, ..self }
    }

    /// The grid after the kernel has run on column `x` alone: that column of
    /// the current buffer holds the next tick, every other cell of either
    /// buffer is untouched.
    pub open spec fn column_updated(self, x: int) -> GridView {
        GridView {
            current: Seq::new(
                self.current.len(),
                |i: int|
                    if x * self.height <= i < x * self.height + self.height {
                        self.frame().next_tile(x, i - x * self.height)
                    } else {
                        self.current[i]
                    },
            ),
            ..self
        }
    }

    /// The grid after one tick: the frame has advanced by one application of
    /// the transition rule and the former frame has become the scratch buffer.
    pub open spec fn ticked(self) -> GridView {
        GridView { previous: self.frame().next().tiles, current: self.previous, ..self }
    }

    /// The grid after the given number of ticks.
    pub open spec fn after(self, ticks: nat) -> GridView
        decreases ticks,
    {
        if ticks == 0 {
            self
        } else {
            self.after((ticks - 1) as nat).ticked()
        }
    }
}

/// Two buffers of tiles of one fixed shape.
#[derive(Debug)]
pub struct Grid {
    width: usize,
    height: usize,
    previous: Vec<Tile>,
    current: Vec<Tile>,
}

impl View for Grid {
    type V = GridView;

    closed spec fn view(&self) -> GridView {
        GridView {
            width: self.width as nat,
            height: self.height as nat,
            previous: self.previous@,
            current: self.current@,
        }
    }
}

/// Replaces the tile of the cell `(x, y)` in a buffer of the given shape.
fn put(cells: &mut Vec<Tile>, Ghost(shape): Ghost<Plane>, height: usize, x: usize, y: usize, tile: Tile)
    requires
        shape.wf(),
        shape.height == height,
        shape.tiles == old(cells)@,
        shape.contains(x as int, y as int),
    ensures
        final(cells)@ == shape.with_tile(x as int, y as int, tile).tiles,
        shape.with_tile(x as int, y as int, tile).wf(),
        forall|u: int, v: int| #[trigger]
            shape.contains(u, v) ==> shape.with_tile(x as int, y as int, tile).at(u, v) == (if u
                == x && v == y {
                tile
            } else {
                shape.at(u, v)
            }),
{
    proof {
        shape.lemma_offset_in_bounds(x as int, y as int);
        shape.lemma_with_tile(x as int, y as int, tile);
    }
    let _ = cells.len();
    cells[x * height + y] = tile;
}

/// Overwrites the cells on the four walls of a buffer of still air: first the
/// top and the bottom wall, column by column, then the left and the right
/// wall, row by row.
fn raise_walls(cells: &mut Vec<Tile>, width: usize, height: usize)
    requires
        width > 0,
        height > 0,
        old(cells)@.len() == width * height,
        forall|i: int| 0 <= i < old(cells)@.len() ==> old(cells)@[i] == Tile::still_air(),
    ensures
        final(cells)@.len() == width * height,
        forall|x: int, y: int|
            0 <= x < width && 0 <= y < height ==> #[trigger] (Plane {
                width: width as nat,
                height: height as nat,
                tiles: final(cells)@,
            }).at(x, y) == fresh_tile(width as nat, height as nat, x, y),
{
    let ghost w = width as nat;
    let ghost h = height as nat;
    let ghost mut shape = Plane { width: w, height: h, tiles: cells@ };
    proof {
        assert forall|u: int, v: int| #[trigger] shape.contains(u, v) implies shape.at(u, v)
            == Tile::still_air() by {
            shape.lemma_offset_in_bounds(u, v);
        }
    }
    let mut x: usize = 0;
    while x < width
        invariant
            x <= width,
            height > 0,
            w == width,
            h == height,
            shape == (Plane { width: w, height: h, tiles: cells@ }),
            shape.wf(),
            forall|u: int, v: int| #[trigger]
                shape.contains(u, v) ==> shape.at(u, v) == (if u < x && v == h - 1 {
                    Tile::still_water()
                } else if u < x && v == 0 {
                    Tile::dry_sand()
                } else {
                    Tile::still_air()
                }),
        decreases width - x,
    {
        let ghost before = shape;
        put(cells, Ghost(shape), height, x, 0, Tile::Sand { humidity: 0 });
        let ghost between = before.with_tile(x as int, 0, Tile::dry_sand());
        put(cells, Ghost(between), height, x, height - 1, Tile::Water { pressure: 0 });
        proof {
            shape = between.with_tile(x as int, h - 1, Tile::still_water());
            assert forall|u: int, v: int| #[trigger] shape.contains(u, v) implies shape.at(u, v)
                == (if u < x + 1 && v == h - 1 {
                Tile::still_water()
            } else if u < x + 1 && v == 0 {
                Tile::dry_sand()
            } else {
                Tile::still_air()
            }) by {
                assert(before.contains(u, v) && between.contains(u, v));
            }
        }
        x += 1;
    }
    let mut y: usize = 0;
    while y < height
        invariant
            y <= height,
            width > 0,
            w == width,
            h == height,
            shape == (Plane { width: w, height: h, tiles: cells@ }),
            shape.wf(),
            forall|u: int, v: int| #[trigger]
                shape.contains(u, v) ==> shape.at(u, v) == (if v < y {
                    fresh_tile(w, h, u, v)
                } else if v == h - 1 {
                    Tile::still_water()
                } else if v == 0 {
                    Tile::dry_sand()
                } else {
                    Tile::still_air()
                }),
        decreases height - y,
    {
        let ghost before = shape;
        put(cells, Ghost(shape), height, 0, y, Tile::Sand { humidity: 0 });
        let ghost between = before.with_tile(0, y as int, Tile::dry_sand());
        put(cells, Ghost(between), height, width - 1, y, Tile::Water { pressure: 0 });
        proof {
            shape = between.with_tile(w - 1, y as int, Tile::still_water());
            assert forall|u: int, v: int| #[trigger] shape.contains(u, v) implies shape.at(u, v)
                == (if v < y + 1 {
                fresh_tile(w, h, u, v)
            } else if v == h - 1 {
                Tile::still_water()
            } else if v == 0 {
                Tile::dry_sand()
            } else {
                Tile::still_air()
            }) by {
                assert(before.contains(u, v) && between.contains(u, v));
            }
        }
        y += 1;
    }
    proof {
        assert forall|u: int, v: int| 0 <= u < width && 0 <= v < height implies #[trigger] (Plane {
            width: w,
            height: h,
            tiles: cells@,
        }).at(u, v) == fresh_tile(w, h, u, v) by {
            assert(shape.contains(u, v));
        }
    }
}

impl Grid {
    /// The grid has a proper shape and both buffers hold one tile per cell.
    pub open spec fn wf(&self) -> bool {
        self@.wf()
    }

    /// Makes a grid of the given shape. The previous buffer holds still air
    /// enclosed by the four walls, the current buffer still air throughout.
    ///
    /// A grid without cells, or with more cells than can be counted, is
    /// refused.
    pub fn create(width: usize, height: usize) -> (r: Result<Grid, GridError>)
        ensures
            r is Err <==> width == 0 || height == 0 || width * height > usize::MAX,
            r matches Err(e) ==> e == GridError::InvalidDimensions,
            r matches Ok(g) ==> {
                &&& g.wf()
                &&& g@.width == width
                &&& g@.height == height
                &&& g@.frame().is_fresh()
                &&& forall|i: int|
                    0 <= i < g@.current.len() ==> g@.current[i] == Tile::still_air()
            },
    {
        if width == 0 || height == 0 {
            return Err(GridError::InvalidDimensions);
        }
        let cells = match width.checked_mul(height) {
            Some(cells) => cells,
            None => {
                return Err(GridError::InvalidDimensions);
            },
        };
        let mut previous = vec![Tile::Air { pressure: 0 }; cells];
        let current = vec![Tile::Air { pressure: 0 }; cells];
        raise_walls(&mut previous, width, height);
        Ok(Grid { width, height, previous, current })
    }

    /// The number of columns.
    pub fn width(&self) -> (w: usize)
        ensures
            w == self@.width,
    {
        self.width
    }

    /// The number of rows.
    pub fn height(&self) -> (h: usize)
        ensures
            h == self@.height,
    {
        self.height
    }

    /// The tile of the cell `(x, y)` of the named buffer.
    pub fn read(&self, buffer: Buffer, x: usize, y: usize) -> (t: Tile)
        requires
            self.wf(),
            x < self@.width,
            y < self@.height,
        ensures
            t == self@.plane(buffer).at(x as int, y as int),
    {
        proof {
            self@.plane(buffer).lemma_offset_in_bounds(x as int, y as int);
        }
        let _ = self.previous.len();
        match buffer {
            Buffer::Previous => self.previous[x * self.height + y],
            Buffer::Current => self.current[x * self.height + y],
        }
    }

    /// Replaces the tile of the cell `(x, y)` of the named buffer.
    pub fn write(&mut self, buffer: Buffer, x: usize, y: usize, tile: Tile)
        requires
            old(self).wf(),
            x < old(self)@.width,
            y < old(self)@.height,
        ensures
            final(self).wf(),
            final(self)@ == old(self)@.written(buffer, x as int, y as int, tile),
    {
        let ghost shape = self@.plane(buffer);
        match buffer {
            Buffer::Previous => put(&mut self.previous, Ghost(shape), self.height, x, y, tile),
            Buffer::Current => put(&mut self.current, Ghost(shape), self.height, x, y, tile),
        }
    }

    /// Exchanges the roles of the two buffers. No tile is copied: the buffers
    /// change hands.
    pub fn swap_buffers(&mut self)
        ensures
            final(self)@ == old(self)@.swapped(),
    {
        std::mem::swap(&mut self.previous, &mut self.current);
    }

    /// Runs the kernel on the column `x` alone: that column of the current
    /// buffer receives the next tick of the frame. No cell of another column
    /// is written, and the frame is only read.
    pub fn update_column(&mut self, x: usize)
        requires
            old(self).wf(),
            x < old(self)@.width,
        ensures
            final(self).wf(),
            final(self)@ == old(self)@.column_updated(x as int),
    {
        let height = self.height;
        proof {
            self@.frame().lemma_offset_in_bounds(x as int, 0);
        }
        let _ = self.current.len();
        let ghost before = self.current@;
        let frame = Frame { width: self.width, height, tiles: self.previous.as_slice() };
        let (_, rest) = self.current.as_mut_slice().split_at_mut(x * height);
        let (column, _) = rest.split_at_mut(height);
        update_column(frame, x, column);
        assert(self.current@ =~= old(self)@.column_updated(x as int).current);
    }

    /// Advances the grid by one tick.
    ///
    /// The kernel computes every column of the current buffer from the frame,
    /// all columns in parallel, and when the last column is done the buffers
    /// change roles: the buffer just written is the new frame.
    pub fn tick(&mut self)
        requires
            old(self).wf(),
        ensures
            final(self).wf(),
            final(self)@ == old(self)@.ticked(),
    {
        let frame = Frame { width: self.width, height: self.height, tiles: self.previous.as_slice() };
        update_all_columns(frame, &mut self.current);
        proof {
            assert(frame@ == old(self)@.frame());
            frame@.lemma_next_from_columns(self.current@);
        }
        std::mem::swap(&mut self.previous, &mut self.current);
    }

    /// Advances the grid by the given number of ticks.
    pub fn run(&mut self, ticks: usize)
        requires
            old(self).wf(),
        ensures
            final(self).wf(),
            final(self)@ == old(self)@.after(ticks as nat),
    {
        let mut done: usize = 0;
        while done < ticks
            invariant
                done <= ticks,
                self.wf(),
                self@ == old(self)@.after(done as nat),
            decreases ticks - done,
        {
            self.tick();
            done += 1;
        }
    }

    /// The frame of the last completed tick, borrowed from the grid.
    pub fn frame(&self) -> (f: Frame<'_>)
        requires
            self.wf(),
        ensures
            f.wf(),
            f@ == self@.frame(),
    {
        Frame { width: self.width, height: self.height, tiles: self.previous.as_slice() }
    }
}

} // verus!
