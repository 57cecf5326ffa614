use vstd::prelude::*;
use crate::color::{palette, black, Color};

verus! {

/// The brush: the currently active color and the fixed ordered palette of
/// eight selectable colors.
pub struct Brush {
    pub color: Color,
    pub colors: [Color; 8],
}

impl Brush {
    /// A well-formed brush carries exactly the fixed palette, in order.
    pub open spec fn wf(self) -> bool {
        self.colors@ == palette()
    }

    /// Sets the active color to the palette entry at `brush_id`; an index
    /// outside the palette is silently ignored.
    pub fn set_brush(&mut self, brush_id: usize)
        ensures
            final(self).colors == old(self).colors,
            brush_id < 8 ==> final(self).color == old(self).colors@[brush_id as int],
            brush_id >= 8 ==> final(self).color == old(self).color,
            old(self).wf() ==> final(self).wf(),
            old(self).wf() && brush_id < 8 ==> final(self).color == palette()[brush_id as int],
    {
        if brush_id > 7 {
            return;
        }
        self.color = self.colors[brush_id];
    }
}

impl Default for Brush {
    /// The default brush: the fixed palette, with black active.
    fn default() -> (b: Brush)
        ensures
            b.wf(),
            b.color == black(),
    {
        let b = Brush {
            color: Color::rgb(0, 0, 0),
            colors: [
                Color::rgb(0, 0, 0),
                Color::rgb(255, 0, 0),
                Color::rgb(0, 255, 0),
                Color::rgb(0, 0, 255),
                Color::rgb(255, 0, 255),
                Color::rgb(255, 255, 0),
                Color::rgb(0, 255, 255),
                Color::rgb(255, 255, 255),
            ],
        };
        proof {
            assert(b.colors@ =~= palette());
        }
        b
    }
}

} // verus!
