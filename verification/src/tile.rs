//! The state of one grid cell.

use vstd::prelude::*;

verus! {

/// What a single cell of the world holds.
///
/// A tile is always exactly one of the three variants; each carries the one
/// scalar that belongs to its material.
#[derive(Clone, Copy, PartialEq, Eq, Structural, Hash, Debug)]
pub enum Tile {
    /// Empty space. The pressure drives gas propagation.
    Air { pressure: i8 },
    /// A granular solid. The humidity records how wet the sand is.
    Sand { humidity: u8 },
    /// A liquid. The pressure drives its sideways flow.
    Water { pressure: i8 },
}

/// The three kinds of tile, without the scalar that a tile carries.
#[derive(Clone, Copy, PartialEq, Eq, Structural, Hash, Debug)]
pub enum Kind {
    Air,
    Sand,
    Water,
}

impl Tile {
    /// The kind of the tile.
    pub open spec fn kind(self) -> Kind {
        match self {
            Tile::Air { .. } => Kind::Air,
            Tile::Sand { .. } => Kind::Sand,
            Tile::Water { .. } => Kind::Water,
        }
    }

    /// True of the two materials that gravity acts on.
    pub open spec fn is_material(self) -> bool {
        self is Sand || self is Water
    }

    /// The pressure that a neighbouring air cell can sense: that of air and
    /// of water. Sand exerts none.
    pub open spec fn sensed_pressure(self) -> Option<i8> {
        match self {
            Tile::Air { pressure } => Some(pressure),
            Tile::Sand { .. } => None,
            Tile::Water { pressure } => Some(pressure),
        }
    }

    /// The character that stands for the tile on a text display.
    pub open spec fn glyph_of(self) -> char {
        match self {
            Tile::Air { .. } => ' ',
            Tile::Sand { .. } => '#',
            Tile::Water { .. } => '~',
        }
    }

    /// The tile that fills every cell of a fresh grid.
    pub open spec fn still_air() -> Tile {
        Tile::Air { pressure: 0 }
    }

    /// The tile of the left and top walls.
    pub open spec fn dry_sand() -> Tile {
        Tile::Sand { humidity: 0 }
    }

    /// The tile of the right and bottom walls.
    pub open spec fn still_water() -> Tile {
        Tile::Water { pressure: 0 }
    }

    /// Tells air from the two materials.
    pub fn is_air(&self) -> (r: bool)
        ensures
            r == (*self is Air),
    {
        match self {
            Tile::Air { .. } => true,
            _ => false,
        }
    }

    /// The display glyph: a blank for air, `#` for sand, `~` for water.
    pub fn glyph(&self) -> (c: char)
        ensures
            c == self.glyph_of(),
    {
        match self {
            Tile::Air { .. } => ' ',
            Tile::Sand { .. } => '#',
            Tile::Water { .. } => '~',
        }
    }

    /// The glyph as an owned string of one character.
    pub fn to_string(&self) -> (s: String)
        ensures
            s@ == seq![self.glyph_of()],
    {
        self.glyph_str().to_owned()
    }
}

} // verus!
