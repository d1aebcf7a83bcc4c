//! Nothing is made and nothing is lost: a tick only moves tiles about.
//!
//! In every tick each cell either keeps its tile or exchanges it with exactly
//! one other cell, its partner, and the partner of the partner is the cell
//! itself. Pressures may change on the way, kinds never do, so the number of
//! tiles of each kind is the same before and after.

use crate::plane::Plane;
use crate::rule::Move;
use crate::tile::{Kind, Tile};
use vstd::prelude::*;
use vstd::relations::injective_on;
use vstd::set_lib::{lemma_int_range, lemma_len_subset, lemma_map_size, set_int_range};

verus! {

/// The indices of a buffer at which a tile of the given kind lies.
pub open spec fn cells_of(tiles: Seq<Tile>, kind: Kind) -> Set<int> {
    Set::new(|i: int| 0 <= i < tiles.len() && tiles[i].kind() == kind)
}

/// The number of tiles of the given kind in a buffer.
pub open spec fn count_of(tiles: Seq<Tile>, kind: Kind) -> nat {
    cells_of(tiles, kind).len()
}

/// The indices of a kind form a finite set, no larger than the buffer.
pub proof fn lemma_cells_of_finite(tiles: Seq<Tile>, kind: Kind)
    ensures
        cells_of(tiles, kind).finite(),
        count_of(tiles, kind) <= tiles.len(),
{
    lemma_int_range(0, tiles.len() as int);
    lemma_len_subset(cells_of(tiles, kind), set_int_range(0, tiles.len() as int));
}

impl Plane {
    /// The number of tiles of the given kind in the plane.
    pub open spec fn count(self, kind: Kind) -> nat {
        count_of(self.tiles, kind)
    }

    /// The number of sand and water tiles in the plane.
    pub open spec fn material_count(self) -> nat {
        self.count(Kind::Sand) + self.count(Kind::Water)
    }

    /// The cell with which `(x, y)` exchanges its tile in this tick: the cell
    /// that its tile moves to, or the cell that a tile arrives from, or the
    /// cell itself where nothing moves.
    pub open spec fn partner(self, x: int, y: int) -> (int, int) {
        if self.departs(x, y) {
            let m = self.intent(x, y);
            (x + m.dx(), y + m.dy())
        } else {
            let m = self.arrival(x, y);
            (x - m.dx(), y - m.dy())
        }
    }

    /// The partner of a cell as an index of the buffer.
    pub open spec fn partner_index(self, i: int) -> int {
        let p = self.partner(i / (self.height as int), i % (self.height as int));
        self.offset(p.0, p.1)
    }

    /// Every cell receives the kind of tile that its partner held, and the
    /// partner of its partner is the cell itself.
    pub proof fn lemma_exchange(self, x: int, y: int)
        requires
            self.wf(),
            self.contains(x, y),
        ensures
            self.contains(self.partner(x, y).0, self.partner(x, y).1),
            self.partner(self.partner(x, y).0, self.partner(x, y).1) == (x, y),
            self.next_tile(x, y).kind() == self.at(
                self.partner(x, y).0,
                self.partner(x, y).1,
            ).kind(),
    {
        let p = self.partner(x, y);
        if self.departs(x, y) {
            let m = self.intent(x, y);
            assert(self.open_at(p.0, p.1));
            assert(self.intent(p.0, p.1) == Move::Stay);
            assert(!self.departs(p.0, p.1));
        } else if self.arrival(x, y) != Move::Stay {
            let m = self.arrival(x, y);
            assert(self.intent(p.0, p.1) == m);
            assert(self.departs(p.0, p.1));
        } else {
        }
    }

    /// The exchange of `lemma_exchange`, told of the indices of the buffer.
    pub proof fn lemma_exchange_index(self, i: int)
        requires
            self.wf(),
            0 <= i < self.tiles.len(),
        ensures
            0 <= self.partner_index(i) < self.tiles.len(),
            self.partner_index(self.partner_index(i)) == i,
            self.next().tiles[i].kind() == self.tiles[self.partner_index(i)].kind(),
    {
        let h = self.height as int;
        let x = i / h;
        let y = i % h;
        self.lemma_cell_of_index(i);
        self.lemma_exchange(x, y);
        let p = self.partner(x, y);
        self.lemma_offset_in_bounds(p.0, p.1);
        vstd::arithmetic::div_mod::lemma_fundamental_div_mod_converse(
            self.offset(p.0, p.1),
            h,
            p.0,
            p.1,
        );
    }

    /// A tick keeps the number of tiles of every kind.
    pub proof fn lemma_tick_conserves_kind(self, kind: Kind)
        requires
            self.wf(),
        ensures
            self.next().count(kind) == self.count(kind),
    {
        let after = cells_of(self.next().tiles, kind);
        let before = cells_of(self.tiles, kind);
        let f = |i: int| self.partner_index(i);
        lemma_cells_of_finite(self.next().tiles, kind);
        assert forall|a: int, b: int|
            after.contains(a) && after.contains(b) && #[trigger] f(a) == #[trigger] f(
                b,
            ) implies a == b by {
            self.lemma_exchange_index(a);
            self.lemma_exchange_index(b);
        }
        assert(injective_on(f, after));
        assert forall|j: int| before.contains(j) implies #[trigger] after.map(f).contains(j) by {
            self.lemma_exchange_index(j);
            let i = self.partner_index(j);
            self.lemma_exchange_index(i);
            assert(after.contains(i) && j == f(i));
        }
        assert forall|j: int| #[trigger] after.map(f).contains(j) implies before.contains(j) by {
            let i = choose|i: int| after.contains(i) && j == f(i);
            self.lemma_exchange_index(i);
        }
        assert(after.map(f) =~= before);
        lemma_map_size(after, before, f);
    }

    /// A tick keeps the number of sand and water tiles.
    pub proof fn lemma_tick_conserves_material(self)
        requires
            self.wf(),
        ensures
            self.next().material_count() == self.material_count(),
    {
        self.lemma_tick_conserves_kind(Kind::Sand);
        self.lemma_tick_conserves_kind(Kind::Water);
    }
}

} // verus!
