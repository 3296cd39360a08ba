//! Path operations built on Skia PathOps and PathKit: the rules and numeric
//! layouts that the library shares with the native geometry engine.
pub mod coeff;
pub mod dash_path_effect;
pub mod direction;
pub mod matrix;
pub mod matrix_type;
pub mod paint;
pub mod path;
pub mod path_fill_type;
pub mod path_iter;
pub mod path_op;
pub mod rect_corner;
pub mod rrect;
pub mod stroke_rec;

pub use dash_path_effect::dash_interval_count_ok;
pub use direction::Direction;
pub use matrix::ScaleToFit;
pub use paint::PaintStyle;
pub use path::point_index_in_range;
pub use path_fill_type::PathFillType;
pub use path_iter::PathVerb;
pub use path_op::PathOp;
pub use rect_corner::RectCorner;
pub use rrect::RRectType;
pub use stroke_rec::{StrokeCap, StrokeJoin, StrokeRecInit, StrokeRecStyleTag};
