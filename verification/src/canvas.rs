use vstd::prelude::*;
use crate::brush::Brush;
use crate::color::{white, Color};
use crate::geom::{Point, Rect};

verus! {

/// One recorded line segment with the color it was drawn in; immutable once
/// created.
#[derive(Clone, Copy, Debug, PartialEq, Eq, Structural)]
pub struct BrushStroke {
    pub beginpos: Point,
    pub endpos: Point,
    pub color: Color,
}

/// One primitive draw call for the surroundings to carry out, in order.
#[derive(Clone, Copy, Debug, PartialEq, Eq, Structural)]
pub enum DrawCmd {
    FillRect { rect: Rect, color: Color },
    Line { start: Point, end: Point, color: Color },
}

/// Clearing a stroke sequence always yields the empty sequence.
pub open spec fn spec_clear_strokes(strokes: Seq<BrushStroke>) -> Seq<BrushStroke> {
    Seq::empty()
}

/// Clearing is idempotent: a cleared sequence is empty, and clearing it
/// again leaves it empty and unchanged, whatever it held before.
pub proof fn lemma_clear_strokes_idempotent(strokes: Seq<BrushStroke>)
    ensures
        spec_clear_strokes(strokes).len() == 0,
        spec_clear_strokes(spec_clear_strokes(strokes)) == spec_clear_strokes(strokes),
{
}

/// The cell of the palette strip at `i`: fifty units square, tiling the top
/// of the window left to right.
pub open spec fn palette_cell(i: int) -> Rect {
    Rect { x: (50 * i) as i32, y: 0, w: 50, h: 50 }
}

/// The paint surface: the canvas region, its background color, the
/// append-only stroke store, and the brush.
pub struct PaintCanvas {
    pub rect: Rect,
    pub background_color: Color,
    pub strokes: Vec<BrushStroke>,
    pub brush: Brush,
}

impl PaintCanvas {
    pub open spec fn wf(self) -> bool {
        self.brush.wf()
    }

    /// The draw commands that repaint the background and the palette strip:
    /// first the canvas region filled with the background color, then the
    /// eight palette cells left to right, each filled with its palette entry.
    pub fn clear(&self) -> (cmds: Vec<DrawCmd>)
        ensures
            cmds@.len() == 9,
            cmds@[0] == (DrawCmd::FillRect { rect: self.rect, color: self.background_color }),
            forall|i: int|
                0 <= i < 8 ==> cmds@[i + 1] == (DrawCmd::FillRect {
                    rect: palette_cell(i),
                    color: self.brush.colors@[i],
                }),
    {
        let mut cmds: Vec<DrawCmd> = Vec::new();
        cmds.push(DrawCmd::FillRect { rect: self.rect, color: self.background_color });
        for i in 0..8usize
            invariant
                cmds@.len() == i + 1,
                cmds@[0] == (DrawCmd::FillRect {
                    rect: self.rect,
                    color: self.background_color,
                }),
                forall|j: int|
                    0 <= j < i ==> cmds@[j + 1] == (DrawCmd::FillRect {
                        rect: palette_cell(j),
                        color: self.brush.colors@[j],
                    }),
        {
            let cell = Rect::new((i as i32) * 50, 0, 50, 50);
            cmds.push(DrawCmd::FillRect { rect: cell, color: self.brush.colors[i] });
        }
        cmds
    }

    /// The draw commands that paint every stored stroke, in insertion order,
    /// each in its own color.
    pub fn draw(&self) -> (cmds: Vec<DrawCmd>)
        ensures
            cmds@.len() == self.strokes@.len(),
            forall|i: int|
                0 <= i < self.strokes@.len() ==> cmds@[i] == (DrawCmd::Line {
                    start: self.strokes@[i].beginpos,
                    end: self.strokes@[i].endpos,
                    color: self.strokes@[i].color,
                }),
    {
        let mut cmds: Vec<DrawCmd> = Vec::new();
        let mut k: usize = 0;
        while k < self.strokes.len()
            invariant
                k <= self.strokes@.len(),
                cmds@.len() == k,
                forall|i: int|
                    0 <= i < k ==> cmds@[i] == (DrawCmd::Line {
                        start: self.strokes@[i].beginpos,
                        end: self.strokes@[i].endpos,
                        color: self.strokes@[i].color,
                    }),
            decreases self.strokes@.len() - k,
        {
            let s = self.strokes[k];
            cmds.push(DrawCmd::Line { start: s.beginpos, end: s.endpos, color: s.color });
            k = k + 1;
        }
        cmds
    }

    /// Replaces the stroke store with the empty sequence; the brush and the
    /// rest of the surface are untouched.
    pub fn clear_strokes(&mut self)
        ensures
            final(self).strokes@ == spec_clear_strokes(old(self).strokes@),
            final(self).strokes@.len() == 0,
            final(self).brush == old(self).brush,
            final(self).rect == old(self).rect,
            final(self).background_color == old(self).background_color,
    {
        self.strokes = Vec::new();
        proof {
            assert(self.strokes@ =~= spec_clear_strokes(old(self).strokes@));
        }
    }

    /// Appends one stroke from `p1` to `p2` in the brush's active color; the
    /// new stroke is the last element, and everything else is unchanged.
    pub fn add(&mut self, p1: Point, p2: Point)
        ensures
            final(self).strokes@ == old(self).strokes@.push(
                BrushStroke { beginpos: p1, endpos: p2, color: old(self).brush.color },
            ),
            final(self).brush == old(self).brush,
            final(self).rect == old(self).rect,
            final(self).background_color == old(self).background_color,
    {
        let stroke = BrushStroke { beginpos: p1, endpos: p2, color: self.brush.color };
        self.strokes.push(stroke);
    }
}

impl Default for PaintCanvas {
    /// The default surface: the canvas region below the palette strip of a
    /// four-hundred-unit square window, a white background, no strokes, and
    /// the default brush.
    fn default() -> (c: PaintCanvas)
        ensures
            c.wf(),
            c.rect == (Rect { x: 0, y: 50, w: 400, h: 350 }),
            c.background_color == white(),
            c.strokes@.len() == 0,
            c.brush.color == crate::color::black(),
    {
        PaintCanvas {
            rect: Rect::new(0, 50, 400, 350),
            background_color: Color::rgb(255, 255, 255),
            strokes: Vec::new(),
            brush: Brush::default(),
        }
    }
}

} // verus!
