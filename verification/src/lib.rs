//! An interactive selector of a single value from a range of values, with the
//! value types that it draws with.
//!
//! All quantities are whole numbers: slider values are integers of the caller's
//! choice, positions and sizes are whole device units, and colour channels are
//! eight bits wide.
pub mod background;
pub mod event;
pub mod geometry;
pub mod layout;
pub mod numeric;
pub mod quantize;
pub mod render;
pub mod rounding;
pub mod style;
pub mod widget;
