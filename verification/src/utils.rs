//! Statuses, colours and text helpers.

pub mod color;
pub mod status;
pub mod text;

pub use color::Color;
pub use status::{Status, Stream};
