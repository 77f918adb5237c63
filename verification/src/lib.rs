//! A verified core for a command-line weather lookup tool.
//!
//! The library resolves a location hint into coordinates, builds the
//! forecast request, and renders the forecast as classified display lines.
//! All numeric weather values are carried as fixed-point hundredths
//! (`i64` centi-units), so that the two-decimal display format is exact.

pub mod classify;
pub mod driver;
pub mod fetch;
pub mod model;
pub mod numfmt;
pub mod parse;
pub mod render;
pub mod resolve;
