use vstd::prelude::*;
use crate::types::{disjoint, GpuGlyph};

verus! {

/// The state of the shelf packer: glyphs are laid left to right in rows,
/// and a row that cannot take the next glyph is closed by starting a new one
/// below it.
#[derive(Clone, Copy, PartialEq, Eq, Structural, Debug)]
pub struct Shelf {
    /// Where the next glyph of the current row starts.
    pub h_cursor: u32,
    /// The top of the current row.
    pub v_cursor: u32,
    /// The height of the tallest glyph in the current row.
    pub line_height: u32,
}

impl Shelf {
    pub open spec fn origin() -> Shelf {
        Shelf { h_cursor: 0, v_cursor: 0, line_height: 0 }
    }

    /// The cursors lie within a texture of `tw` by `th` pixels.
    pub open spec fn wf(self, tw: u32, th: u32) -> bool {
        self.h_cursor <= tw && self.v_cursor + self.line_height <= th
    }

    /// `g` lies behind the cursors: in a closed row above the current one,
    /// or in the current row left of `h_cursor`.
    pub open spec fn covers(self, g: GpuGlyph) -> bool {
        ||| g.y + g.height <= self.v_cursor
        ||| (g.y == self.v_cursor && g.x + g.width <= self.h_cursor && g.height
            <= self.line_height)
    }

    /// Where a glyph of `w` by `h` pixels goes, and the packer's next state;
    /// `None` when the texture has no room left for it.
    pub open spec fn spec_place(self, tw: u32, th: u32, w: u32, h: u32) -> Option<(GpuGlyph, Shelf)> {
        let wrap = self.h_cursor + w > tw;
        let x: int = if wrap { 0 } else { self.h_cursor as int };
        let y: int = if wrap { self.v_cursor + self.line_height } else { self.v_cursor as int };
        let lh: int = if wrap { 0 } else { self.line_height as int };
        if y + h > th {
            None
        } else {
            Some(
                (
                    GpuGlyph { x: x as u32, y: y as u32, width: w, height: h },
                    Shelf {
                        h_cursor: (x + w) as u32,
                        v_cursor: y as u32,
                        line_height: (if lh >= h { lh } else { h as int }) as u32,
                    },
                ),
            )
        }
    }

    pub fn new() -> (r: Shelf)
        ensures
            r == Shelf::origin(),
    {
        Shelf { h_cursor: 0, v_cursor: 0, line_height: 0 }
    }

    /// Places a glyph of `w` by `h` pixels in a texture of `tw` by `th`.
    pub fn place(&self, tw: u32, th: u32, w: u32, h: u32) -> (r: Option<(GpuGlyph, Shelf)>)
        requires
            self.wf(tw, th),
            w <= tw,
            h <= th,
        ensures
            r == self.spec_place(tw, th, w, h),
            r matches Some((g, s)) ==> {
                &&& s.wf(tw, th)
                &&& g.x + g.width <= tw
                &&& g.y + g.height <= th
                &&& s.covers(g)
            },
    {
        let wrap = self.h_cursor as u64 + w as u64 > tw as u64;
        let x: u32 = if wrap { 0 } else { self.h_cursor };
        let y: u32 = if wrap { self.v_cursor + self.line_height } else { self.v_cursor };
        let lh: u32 = if wrap { 0 } else { self.line_height };
        if y as u64 + h as u64 > th as u64 {
            None
        } else {
            let g = GpuGlyph { x, y, width: w, height: h };
            let s = Shelf { h_cursor: x + w, v_cursor: y, line_height: if lh >= h { lh } else { h } };
            Some((g, s))
        }
    }

    /// Placing a glyph keeps every glyph placed before behind the cursors,
    /// and the new glyph shares no pixel with any of them.
    pub proof fn lemma_place_keeps_cover(self, tw: u32, th: u32, w: u32, h: u32, old_g: GpuGlyph)
        requires
            self.wf(tw, th),
            w <= tw,
            h <= th,
            self.covers(old_g),
            self.spec_place(tw, th, w, h) is Some,
        ensures
            ({
                let (g, s) = self.spec_place(tw, th, w, h)->0;
                s.covers(old_g) && disjoint(g, old_g)
            }),
    {
    }
}

} // verus!
