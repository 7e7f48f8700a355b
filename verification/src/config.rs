//! Configuration units: command units that run attached, each behind a
//! check of its own.

mod config_item;
mod config_repository;

pub use config_item::{Config, ConfigView};
pub use config_repository::ConfigRepository;
