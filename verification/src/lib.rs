//! Verified core of a WireGuard pod-tunnel provisioner: address pools,
//! reconciliation stages and the interface provisioning workflow.

pub mod cni;
pub mod controllers;
pub mod drivers;
pub mod errors;
pub mod fields;
pub mod helpers;
pub mod manifests;
pub mod net;
pub mod secrets;
pub mod text;
pub mod wireguard;
