use paint::canvas::{DrawCmd, PaintCanvas};
use paint::color::Color;
use paint::geom::{Point, Rect};

#[test]
fn default_canvas_region_background_and_empty_store() {
    let c = PaintCanvas::default();
    assert_eq!(c.rect, Rect::new(0, 50, 400, 350));
    assert_eq!(c.background_color, Color::rgb(255, 255, 255));
    assert_eq!(c.strokes.len(), 0);
    assert_eq!(c.brush.color, Color::rgb(0, 0, 0));
}

#[test]
fn add_appends_stroke_with_active_color_as_last_element() {
    let mut c = PaintCanvas::default();
    c.add(Point::new(1, 2), Point::new(3, 4));
    c.brush.set_brush(1);
    c.add(Point::new(5, 6), Point::new(7, 8));
    assert_eq!(c.strokes.len(), 2);
    let last = c.strokes[1];
    assert_eq!(last.beginpos, Point::new(5, 6));
    assert_eq!(last.endpos, Point::new(7, 8));
    assert_eq!(last.color, Color::rgb(255, 0, 0));
    // the earlier stroke keeps the color it was drawn in
    assert_eq!(c.strokes[0].color, Color::rgb(0, 0, 0));
}

#[test]
fn clear_strokes_empties_the_store_whatever_it_held() {
    let mut c = PaintCanvas::default();
    for i in 0..5 {
        c.add(Point::new(i, i), Point::new(i + 1, i + 1));
    }
    assert_eq!(c.strokes.len(), 5);
    c.clear_strokes();
    assert_eq!(c.strokes.len(), 0);
}

#[test]
fn clear_strokes_twice_is_idempotent_and_keeps_brush() {
    let mut c = PaintCanvas::default();
    c.brush.set_brush(6);
    c.add(Point::new(0, 0), Point::new(9, 9));
    c.clear_strokes();
    assert_eq!(c.strokes.len(), 0);
    c.clear_strokes();
    assert_eq!(c.strokes.len(), 0);
    assert_eq!(c.brush.color, Color::rgb(0, 255, 255));
}

#[test]
fn select_blue_then_stroke_yields_one_blue_stroke() {
    let mut c = PaintCanvas::default();
    assert_eq!(c.brush.color, Color::rgb(0, 0, 0));
    c.brush.set_brush(3);
    c.add(Point::new(0, 0), Point::new(10, 10));
    assert_eq!(c.strokes.len(), 1);
    assert_eq!(c.strokes[0].color, Color::rgb(0, 0, 255));
}

#[test]
fn clear_emits_background_then_eight_palette_cells() {
    let c = PaintCanvas::default();
    let cmds = c.clear();
    assert_eq!(cmds.len(), 9);
    assert_eq!(
        cmds[0],
        DrawCmd::FillRect { rect: Rect::new(0, 50, 400, 350), color: Color::rgb(255, 255, 255) }
    );
    let palette = [
        Color::rgb(0, 0, 0),
        Color::rgb(255, 0, 0),
        Color::rgb(0, 255, 0),
        Color::rgb(0, 0, 255),
        Color::rgb(255, 0, 255),
        Color::rgb(255, 255, 0),
        Color::rgb(0, 255, 255),
        Color::rgb(255, 255, 255),
    ];
    for i in 0..8usize {
        assert_eq!(
            cmds[i + 1],
            DrawCmd::FillRect {
                rect: Rect::new(i as i32 * 50, 0, 50, 50),
                color: palette[i],
            }
        );
    }
}

#[test]
fn draw_emits_one_line_per_stroke_in_insertion_order() {
    let mut c = PaintCanvas::default();
    c.add(Point::new(1, 60), Point::new(2, 61));
    c.brush.set_brush(4);
    c.add(Point::new(2, 61), Point::new(3, 62));
    let cmds = c.draw();
    assert_eq!(cmds.len(), 2);
    assert_eq!(
        cmds[0],
        DrawCmd::Line { start: Point::new(1, 60), end: Point::new(2, 61), color: Color::rgb(0, 0, 0) }
    );
    assert_eq!(
        cmds[1],
        DrawCmd::Line { start: Point::new(2, 61), end: Point::new(3, 62), color: Color::rgb(255, 0, 255) }
    );
}
