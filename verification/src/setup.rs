//! Setup entries and the registry that holds them.

mod setup_entry;
mod setup_item;
mod setup_registry;

pub use setup_entry::{applies_to, command_views, config_views, configs_view, item_view};
pub use setup_entry::{SetupEntry, SetupEntryView, SetupState, SetupStateView};
pub use setup_item::{names_view, texts_view};
pub use setup_item::{PreparationState, PreparationView, SetupItem, SetupItemView};
pub use setup_registry::entry_views;
pub use setup_registry::{RegistryState, RegistryStateView, SetupRegistry, SetupRegistryView};
