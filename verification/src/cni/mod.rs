//! The container-network-interface side: what the plugin is handed when a
//! pod is created, and what it hands back.

pub mod operations;
pub mod specification;
