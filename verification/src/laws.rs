//! What holds of every grid, whatever it contains.

use crate::grid::{fresh_tile, Buffer, GridView};
use crate::plane::Plane;
use crate::rule::Move;
use crate::tile::Kind;
use vstd::prelude::*;

verus! {

impl Plane {
    /// The walls stand: a tick leaves every cell on a wall as it was.
    pub proof fn lemma_walls_stand(self, x: int, y: int)
        requires
            self.wf(),
            self.on_wall(x, y),
        ensures
            self.next_tile(x, y) == self.at(x, y),
            self.next().at(x, y) == self.at(x, y),
    {
        self.lemma_next_at(x, y);
    }

    /// A fresh world is at rest: where nothing but walls and still air is
    /// found, a tick copies every tile.
    pub proof fn lemma_fresh_world_rests(self)
        requires
            self.wf(),
            self.is_fresh(),
        ensures
            self.next() == self,
    {
        let h = self.height as int;
        assert forall|i: int| 0 <= i < self.tiles.len() implies self.next().tiles[i]
            == self.tiles[i] by {
            self.lemma_cell_of_index(i);
            let x = i / h;
            let y = i % h;
            assert(self.contains(x, y));
            if self.interior(x, y) {
                assert(self.contains(x, y - 1) && self.contains(x, y + 1));
                assert(self.contains(x - 1, y) && self.contains(x + 1, y));
                assert(self.contains(x - 1, y - 1) && self.contains(x + 1, y - 1));
                assert(self.intent(x, y - 1) == Move::Stay);
                assert(self.intent(x - 1, y - 1) == Move::Stay);
                assert(self.intent(x + 1, y - 1) == Move::Stay);
                assert(self.intent(x - 1, y) == Move::Stay);
                assert(self.intent(x + 1, y) == Move::Stay);
                assert(self.inflow(x, y, 0) == 0);
            }
            assert(self.next_tile(x, y) == self.at(x, y));
        }
        assert(self.next().tiles =~= self.tiles);
    }

    /// A fresh world stays as it is through any number of ticks.
    pub proof fn lemma_fresh_world_rests_for_good(self, ticks: nat)
        requires
            self.wf(),
            self.is_fresh(),
        ensures
            self.after(ticks) == self,
        decreases ticks,
    {
        if ticks > 0 {
            self.lemma_fresh_world_rests_for_good((ticks - 1) as nat);
            self.lemma_fresh_world_rests();
        }
    }

    /// A plane keeps its shape through any number of ticks.
    pub proof fn lemma_after_wf(self, ticks: nat)
        requires
            self.wf(),
        ensures
            self.after(ticks).wf(),
            self.after(ticks).width == self.width,
            self.after(ticks).height == self.height,
        decreases ticks,
    {
        if ticks > 0 {
            self.lemma_after_wf((ticks - 1) as nat);
            self.after((ticks - 1) as nat).lemma_next_wf();
        }
    }

    /// The walls stand for good: whatever a cell on a wall holds, it holds
    /// after any number of ticks.
    pub proof fn lemma_walls_stand_for_good(self, ticks: nat, x: int, y: int)
        requires
            self.wf(),
            self.on_wall(x, y),
        ensures
            self.after(ticks).at(x, y) == self.at(x, y),
        decreases ticks,
    {
        if ticks > 0 {
            let earlier = self.after((ticks - 1) as nat);
            self.lemma_after_wf((ticks - 1) as nat);
            self.lemma_walls_stand_for_good((ticks - 1) as nat, x, y);
            earlier.lemma_walls_stand(x, y);
        }
    }

    /// Any number of ticks keeps the number of tiles of every kind, and so the
    /// number of sand and water tiles.
    pub proof fn lemma_ticks_conserve(self, ticks: nat, kind: Kind)
        requires
            self.wf(),
        ensures
            self.after(ticks).count(kind) == self.count(kind),
        decreases ticks,
    {
        if ticks > 0 {
            self.lemma_after_wf((ticks - 1) as nat);
            self.lemma_ticks_conserve((ticks - 1) as nat, kind);
            self.after((ticks - 1) as nat).lemma_tick_conserves_kind(kind);
        }
    }
}

impl GridView {
    /// The current buffer after the kernel has run on the columns before `x`,
    /// one after the other.
    pub open spec fn columns_updated(self, x: nat) -> GridView
        decreases x,
    {
        if x == 0 {
            self
        } else {
            self.columns_updated((x - 1) as nat).column_updated(x - 1)
        }
    }

    /// Exchanging the buffers twice restores the grid.
    pub proof fn lemma_swap_twice(self)
        ensures
            self.swapped().swapped() == self,
    {
    }

    /// The kernel writes within its column: run on column `x` it gives the
    /// cells of that column their next tile and leaves every other cell of the
    /// current buffer, and the whole previous buffer, as they were.
    pub proof fn lemma_column_local(self, x: int, u: int, v: int)
        requires
            self.wf(),
            0 <= x < self.width,
            self.frame().contains(u, v),
        ensures
            self.column_updated(x).wf(),
            self.column_updated(x).previous == self.previous,
            self.column_updated(x).plane(Buffer::Current).at(u, v) == (if u == x {
                self.frame().next_tile(u, v)
            } else {
                self.plane(Buffer::Current).at(u, v)
            }),
    {
        let h = self.height as int;
        self.frame().lemma_offset_in_bounds(u, v);
        self.frame().lemma_offset_in_bounds(x, 0);
        if u != x {
            assert(u * h + v < x * h || u * h + v >= x * h + h) by (nonlinear_arith)
                requires
                    u != x,
                    0 <= v < h,
            ;
        }
    }

    /// Running the kernel on every column in turn and exchanging the buffers
    /// is one tick: the order in which the columns are computed, or whether
    /// they are computed at the same time, makes no difference.
    pub proof fn lemma_columns_make_tick(self)
        requires
            self.wf(),
        ensures
            self.columns_updated(self.width).swapped() == self.ticked(),
    {
        self.lemma_columns_updated(self.width);
        let done = self.columns_updated(self.width);
        let next = self.frame().next();
        assert forall|i: int| 0 <= i < done.current.len() implies done.current[i]
            == next.tiles[i] by {
            self.frame().lemma_cell_of_index(i);
            let x = i / (self.height as int);
            let y = i % (self.height as int);
            assert(done.plane(Buffer::Current).at(x, y) == self.frame().next_tile(x, y));
        }
        assert(done.current =~= next.tiles);
    }

    /// After the kernel has run on the columns before `x`, exactly those
    /// columns of the current buffer hold their next tiles.
    pub proof fn lemma_columns_updated(self, x: nat)
        requires
            self.wf(),
            x <= self.width,
        ensures
            self.columns_updated(x).wf(),
            self.columns_updated(x).width == self.width,
            self.columns_updated(x).height == self.height,
            self.columns_updated(x).previous == self.previous,
            forall|u: int, v: int| #[trigger]
                self.frame().contains(u, v) ==> self.columns_updated(x).plane(Buffer::Current).at(
                    u,
                    v,
                ) == (if u < x {
                    self.frame().next_tile(u, v)
                } else {
                    self.plane(Buffer::Current).at(u, v)
                }),
        decreases x,
    {
        if x > 0 {
            let earlier = self.columns_updated((x - 1) as nat);
            self.lemma_columns_updated((x - 1) as nat);
            assert(earlier.frame() == self.frame());
            assert forall|u: int, v: int| #[trigger] self.frame().contains(u, v) implies
                self.columns_updated(x).plane(Buffer::Current).at(u, v) == (if u < x {
                self.frame().next_tile(u, v)
            } else {
                self.plane(Buffer::Current).at(u, v)
            }) by {
                earlier.lemma_column_local(x - 1, u, v);
            }
            earlier.lemma_column_local(x - 1, 0, 0);
        }
    }

    /// A grid keeps its shape through any number of ticks, and its frame goes
    /// the way of the transition rule.
    pub proof fn lemma_frame_after(self, ticks: nat)
        requires
            self.wf(),
        ensures
            self.after(ticks).wf(),
            self.after(ticks).width == self.width,
            self.after(ticks).height == self.height,
            self.after(ticks).frame() == self.frame().after(ticks),
        decreases ticks,
    {
        if ticks > 0 {
            self.lemma_frame_after((ticks - 1) as nat);
            self.after((ticks - 1) as nat).frame().lemma_next_wf();
        }
    }

    /// The future of a grid is decided by its frame alone: two grids that
    /// show the same frame show the same frame after the same number of
    /// ticks, whatever their scratch buffers held, and after one tick or more
    /// they agree in both buffers.
    pub proof fn lemma_same_frame_same_future(self, other: GridView, ticks: nat)
        requires
            self.wf(),
            other.wf(),
            self.frame() == other.frame(),
        ensures
            self.after(ticks).frame() == other.after(ticks).frame(),
            ticks > 0 ==> self.after(ticks) == other.after(ticks),
        decreases ticks,
    {
        if ticks > 0 {
            self.lemma_same_frame_same_future(other, (ticks - 1) as nat);
            self.lemma_frame_after((ticks - 1) as nat);
            other.lemma_frame_after((ticks - 1) as nat);
        }
    }

    /// The frame holds as many tiles of every kind after any number of ticks
    /// as it held before.
    pub proof fn lemma_ticks_conserve(self, ticks: nat, kind: Kind)
        requires
            self.wf(),
        ensures
            self.after(ticks).frame().count(kind) == self.frame().count(kind),
            self.after(ticks).frame().material_count() == self.frame().material_count(),
    {
        self.lemma_frame_after(ticks);
        self.frame().lemma_ticks_conserve(ticks, kind);
        self.frame().lemma_ticks_conserve(ticks, Kind::Sand);
        self.frame().lemma_ticks_conserve(ticks, Kind::Water);
    }

    /// A frame that is enclosed by the walls of a fresh grid stays enclosed
    /// by them through any number of ticks.
    pub proof fn lemma_walls_kept(self, ticks: nat, x: int, y: int)
        requires
            self.wf(),
            self.frame().on_wall(x, y),
            self.frame().at(x, y) == fresh_tile(self.width, self.height, x, y),
        ensures
            self.after(ticks).frame().at(x, y) == fresh_tile(self.width, self.height, x, y),
    {
        self.lemma_frame_after(ticks);
        self.frame().lemma_walls_stand_for_good(ticks, x, y);
    }
}

} // verus!
