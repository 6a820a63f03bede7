//! What drives the node: external commands, key generation and the
//! provisioning of a pod's tunnel interface.

pub mod interface;
pub mod key;
pub mod system;
pub mod workflows;
