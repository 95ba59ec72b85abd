//! Terminal grid squares: the content and attributes of one screen cell, the
//! style-flag set it carries, and the row-level queries built on top of it.

pub mod color;
pub mod discriminant;
pub mod extra;
pub mod flags;
pub mod grid;
pub mod line_length;
pub mod square;

pub use color::AnsiColor;
pub use color::ColorRgb;
pub use color::NamedColor;
pub use discriminant::ResetDiscriminant;
pub use extra::CellExtra;
pub use flags::Flags;
pub use grid::Column;
pub use grid::GridSquare;
pub use grid::Row;
pub use line_length::LineLength;
pub use square::Square;
