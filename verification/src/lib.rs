//! A minimal interactive drawing model: a brush with a fixed eight-color
//! palette, an append-only store of line-segment strokes, and the per-frame
//! decision logic that turns input samples into state changes and draw
//! commands. Windowing, event polling and rasterisation stay outside the
//! library; it exchanges only plain values with its surroundings.

pub mod color;
pub mod geom;
pub mod brush;
pub mod canvas;
pub mod frame;
