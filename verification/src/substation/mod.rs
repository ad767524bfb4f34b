//! The substation agent: configuration, event manifests, the persistent
//! queue, the upload retry policy, local retention and inbox debouncing.
pub mod config;
pub mod manifest;

pub mod queue;
pub mod sender;
pub mod retention;
pub mod watcher;
pub mod renewal;
