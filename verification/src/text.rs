//! The frame as text: one glyph per cell, one line per row.

use crate::frame::Frame;
use crate::plane::Plane;
use crate::tile::Tile;
use vstd::prelude::*;
use vstd::string::StringExecFns;

verus! {

impl Plane {
    /// The glyphs of the row `y`, left to right.
    pub open spec fn row_text(self, y: int) -> Seq<char> {
        Seq::new(self.width, |x: int| self.at(x, y).glyph_of())
    }

    /// The first `rows` rows as text, top to bottom, each closed by a line
    /// feed.
    pub open spec fn text_of_rows(self, rows: nat) -> Seq<char>
        decreases rows,
    {
        if rows == 0 {
            Seq::empty()
        } else {
            self.text_of_rows((rows - 1) as nat) + self.row_text(rows - 1) + seq!['\n']
        }
    }

    /// The whole plane as text.
    pub open spec fn text(self) -> Seq<char> {
        self.text_of_rows(self.height)
    }
}

impl Tile {
    /// The glyph of the tile as a string of one character.
    pub fn glyph_str(&self) -> (s: &'static str)
        ensures
            s@ == seq![self.glyph_of()],
    {
        proof {
            reveal_strlit(" ");
            reveal_strlit("#");
            reveal_strlit("~");
        }
        match self {
            Tile::Air { .. } => " ",
            Tile::Sand { .. } => "#",
            Tile::Water { .. } => "~",
        }
    }
}

impl<'a> Frame<'a> {
    /// The glyphs of the row `y`, left to right.
    pub fn row_text(&self, y: usize) -> (s: String)
        requires
            self.wf(),
            y < self@.height,
        ensures
            s@ == self@.row_text(y as int),
    {
        let mut line = String::new();
        let mut x: usize = 0;
        while x < self.width
            invariant
                self.wf(),
                y < self@.height,
                x <= self.width,
                line@.len() == x,
                forall|k: int| 0 <= k < x ==> line@[k] == self@.at(k, y as int).glyph_of(),
            decreases self.width - x,
        {
            let tile = self.tile(x, y);
            line.append(tile.glyph_str());
            x += 1;
        }
        assert(line@ =~= self@.row_text(y as int));
        line
    }

    /// The whole frame as text: the rows from top to bottom, each closed by a
    /// line feed.
    pub fn text(&self) -> (s: String)
        requires
            self.wf(),
        ensures
            s@ == self@.text(),
    {
        proof {
            reveal_strlit("\n");
        }
        let mut out = String::new();
        let mut y: usize = 0;
        while y < self.height
            invariant
                self.wf(),
                y <= self.height,
                "\n"@ == seq!['\n'],
                out@ == self@.text_of_rows(y as nat),
            decreases self.height - y,
        {
            let line = self.row_text(y);
            out.append(line.as_str());
            out.append("\n");
            y += 1;
        }
        out
    }
}

} // verus!
