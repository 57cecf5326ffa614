use vstd::prelude::*;
use crate::brush::Brush;
use crate::canvas::{BrushStroke, PaintCanvas};
use crate::color::Color;
use crate::geom::Point;

verus! {

/// One input event of a frame, in arrival order: a request to quit, the
/// clear key going down, or anything else (ignored).
#[derive(Clone, Copy, Debug, PartialEq, Eq, Structural)]
pub enum FrameEvent {
    Quit,
    ClearKey,
    Other,
}

/// The instantaneous mouse state of a frame: whether the left button is
/// pressed, and the pointer position relative to the window origin.
#[derive(Clone, Copy, Debug, PartialEq, Eq, Structural)]
pub struct MouseSample {
    pub left_pressed: bool,
    pub x: i32,
    pub y: i32,
}

/// Whether the batch holds a quit event anywhere.
pub open spec fn contains_quit(events: Seq<FrameEvent>) -> bool {
    exists|i: int| 0 <= i < events.len() && events[i] is Quit
}

/// Whether a clear key arrives before any quit event: only those clears are
/// acted on, since a quit stops the processing of the batch.
pub open spec fn clear_before_quit(events: Seq<FrameEvent>) -> bool {
    exists|i: int|
        0 <= i < events.len() && events[i] is ClearKey && (forall|j: int|
            0 <= j < i ==> !(events[j] is Quit))
}

/// The palette index under a pointer at horizontal position `x`, one cell
/// being fifty units wide.
pub open spec fn palette_index_of(x: int) -> int {
    x / 50
}

/// The active color after one mouse sample: a left press inside the palette
/// strip with the pointer over a valid cell selects that cell's color; any
/// other sample leaves the active color alone.
pub open spec fn selected_color(b: Brush, mouse: MouseSample) -> Color {
    if mouse.left_pressed && mouse.y <= 50 && 0 <= palette_index_of(mouse.x as int) < 8 {
        b.colors@[palette_index_of(mouse.x as int)]
    } else {
        b.color
    }
}

/// The stroke one pressed sample records: from the previous sample's
/// position to the current one, in the color active after any selection of
/// this same sample.
pub open spec fn sampled_stroke(b: Brush, last: Point, mouse: MouseSample) -> BrushStroke {
    BrushStroke {
        beginpos: last,
        endpos: Point { x: mouse.x, y: mouse.y },
        color: selected_color(b, mouse),
    }
}

/// Drains one frame's event batch in arrival order: a quit event ends the
/// run at once (later events are not looked at), the clear key empties the
/// stroke store, and everything else is ignored.
pub fn process_events(canvas: &mut PaintCanvas, events: &Vec<FrameEvent>) -> (quit: bool)
    ensures
        quit == contains_quit(events@),
        final(canvas).strokes@ == if clear_before_quit(events@) {
            Seq::<BrushStroke>::empty()
        } else {
            old(canvas).strokes@
        },
        final(canvas).brush == old(canvas).brush,
        final(canvas).rect == old(canvas).rect,
        final(canvas).background_color == old(canvas).background_color,
{
    let mut k: usize = 0;
    while k < events.len()
        invariant
            k <= events@.len(),
            forall|j: int| 0 <= j < k ==> !(events@[j] is Quit),
            canvas.strokes@ == if exists|j: int| 0 <= j < k && events@[j] is ClearKey {
                Seq::<BrushStroke>::empty()
            } else {
                old(canvas).strokes@
            },
            canvas.brush == old(canvas).brush,
            canvas.rect == old(canvas).rect,
            canvas.background_color == old(canvas).background_color,
        decreases events@.len() - k,
    {
        match events[k] {
            FrameEvent::Quit => {
                proof {
                    // events[k] is the witness that the batch quits
                    assert(contains_quit(events@));
                    // a clear is acted on exactly when it stood before this quit,
                    // that is, among the first k events, which hold no quit
                    if exists|j: int| 0 <= j < k && events@[j] is ClearKey {
                        let w = choose|j: int| 0 <= j < k && events@[j] is ClearKey;
                        assert(clear_before_quit(events@));
                    } else if clear_before_quit(events@) {
                        let i = choose|i: int|
                            0 <= i < events@.len() && events@[i] is ClearKey && (forall|j: int|
                                0 <= j < i ==> !(events@[j] is Quit));
                        // such an i can lie neither at k or beyond (the quit at k
                        // would precede it) nor before k (no clear key is there)
                        assert(i >= k ==> events@[k as int] is Quit && k < i);
                        assert(false);
                    }
                }
                return true;
            },
            FrameEvent::ClearKey => {
                canvas.clear_strokes();
            },
            FrameEvent::Other => {},
        }
        k = k + 1;
    }
    proof {
        // the whole batch was drained without a quit, so a clear key anywhere
        // in it was acted on, and only then
        if clear_before_quit(events@) {
            let i = choose|i: int|
                0 <= i < events@.len() && events@[i] is ClearKey && (forall|j: int|
                    0 <= j < i ==> !(events@[j] is Quit));
            assert(exists|j: int| 0 <= j < k && events@[j] is ClearKey);
        }
        if exists|j: int| 0 <= j < k && events@[j] is ClearKey {
            let w = choose|j: int| 0 <= j < k && events@[j] is ClearKey;
            assert(clear_before_quit(events@));
        }
    }
    false
}

/// Applies one mouse sample: while the left button is pressed, a pointer in
/// the palette strip selects a color, and a stroke from the previous to the
/// current position is always recorded — even inside the strip, and even
/// when the two positions coincide. An unpressed sample changes nothing.
pub fn handle_mouse(canvas: &mut PaintCanvas, last: Point, mouse: MouseSample)
    ensures
        final(canvas).brush.color == selected_color(old(canvas).brush, mouse),
        final(canvas).brush.colors == old(canvas).brush.colors,
        final(canvas).strokes@ == if mouse.left_pressed {
            old(canvas).strokes@.push(sampled_stroke(old(canvas).brush, last, mouse))
        } else {
            old(canvas).strokes@
        },
        final(canvas).rect == old(canvas).rect,
        final(canvas).background_color == old(canvas).background_color,
{
    if mouse.left_pressed {
        if mouse.y <= 50 {
            if mouse.x >= 0 {
                let idx: usize = (mouse.x / 50) as usize;
                canvas.brush.set_brush(idx);
            }
        }
        let end = Point::new(mouse.x, mouse.y);
        canvas.add(last, end);
    }
}

/// One iteration of the application loop, on plain values: drain the event
/// batch; on quit, stop with the state as the events left it; otherwise
/// apply the mouse sample and report the position the next frame should
/// treat as previous — the current one, whether or not the button was
/// pressed.
pub fn frame_step(
    canvas: &mut PaintCanvas,
    events: &Vec<FrameEvent>,
    mouse: MouseSample,
    last: Point,
) -> (r: (bool, Point))
    ensures
        r.0 == contains_quit(events@),
        ({
            let after_events = if clear_before_quit(events@) {
                Seq::<BrushStroke>::empty()
            } else {
                old(canvas).strokes@
            };
            if r.0 {
                final(canvas).strokes@ == after_events
                    && final(canvas).brush == old(canvas).brush
                    && r.1 == last
            } else {
                final(canvas).brush.color == selected_color(old(canvas).brush, mouse)
                    && final(canvas).brush.colors == old(canvas).brush.colors
                    && final(canvas).strokes@ == (if mouse.left_pressed {
                        after_events.push(sampled_stroke(old(canvas).brush, last, mouse))
                    } else {
                        after_events
                    })
                    && r.1 == (Point { x: mouse.x, y: mouse.y })
            }
        }),
        final(canvas).rect == old(canvas).rect,
        final(canvas).background_color == old(canvas).background_color,
{
    let quit = process_events(canvas, events);
    if quit {
        return (true, last);
    }
    handle_mouse(canvas, last, mouse);
    (false, Point::new(mouse.x, mouse.y))
}

} // verus!
