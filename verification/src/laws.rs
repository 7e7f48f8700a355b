//! What holds of every run of the engine, proved once and for all.

pub mod batch;
pub mod entry;
pub mod preparation;
pub mod registry;
pub mod status;
pub mod text;
pub mod unit;
