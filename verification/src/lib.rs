//! Graph paper with plotted points, drawn as an SVG document.
//!
//! A chart is a sheet ([`GraphPaper`]) with a scale for each axis, linear
//! or logarithmic. A scale places data on the sheet and draws the ticks of
//! its axis; the chart ([`graph_paper::Graph`]) puts frame, title, points
//! and ticks together and writes them out.
//!
//! All numbers are fixed-point: an `i64` that counts millionths of a unit
//! ([`math::fixed::UNIT`] is the number one). Quotients are rounded
//! towards minus infinity, and a result that an `i64` cannot hold is pinned
//! to the nearer end of its range. The library does no floating-point
//! arithmetic; a logarithmic axis is therefore addressed by exponent, and
//! is told where the minor ticks of a decade stand.

use vstd::prelude::*;

pub mod axis;
pub mod graph_paper;
pub mod math;
pub mod table;
pub mod text;

pub use crate::graph_paper::{GraphPaper, XLinearScale, XLogScale, YLinearScale, YLogScale};
pub use crate::math::vector2::Vec2;

verus! {

} // verus!
