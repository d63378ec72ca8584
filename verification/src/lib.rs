//! A two-axis flex-style layout engine with typographic baseline alignment
//! for paginated documents.
//!
//! The kernel accepts a tree of boxes, textual leaves, fillers and break
//! markers and computes their absolute positions and sizes on a page grid,
//! honoring flexible sizing, wrapping, gaps, padding, ordered style
//! inheritance, and cross-axis alignment.
//!
//! All lengths are integer `Unit`s (1 unit = 1/1000 mm); weights are
//! non-negative integer `Fill`s.

pub mod unit;
pub mod dimension;
pub mod position;
pub mod axis;
pub mod color;
pub mod font;
pub mod style;
pub mod element;
pub mod children;
pub mod implementation;
pub mod render;

pub use axis::Axis;
pub use children::{Line, lay_out_native};
pub use color::Rgba;
pub use dimension::{Dim, FlexDim, MaybeDim};
pub use element::{BlockBox, Filling, LayoutBox, Node, PageBreak, Text, Wrap};
pub use font::{Features, TextExtent};
pub use position::{Offset, Quad, Size};
pub use render::NewPageOptions;
pub use style::{AlignItems, Border, Font, Stroke, Style, StyleBuilder};
pub use unit::{Fill, FillPerMille, Unit, add_fill, add_unit, sub_fill, sub_unit};
