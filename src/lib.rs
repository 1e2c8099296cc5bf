//! Steam shortcut synchronisation: reconciliation of discovered games with
//! existing shortcuts, artwork naming, the download cache state machine and
//! the grid-id cache.

pub mod platform;
pub mod artwork;
pub mod shortcut;
pub mod reconcile;
pub mod cache;
pub mod grid_cache;
pub mod commandline;
pub mod heroic;
pub mod fetch;
pub mod progress;
pub mod renames;
pub mod browse;
pub mod sync;
