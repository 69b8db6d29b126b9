//! A minimal host for binary audio plugins, bridged to a realtime audio
//! server: descriptor selection, the plugin lifecycle state machine, and
//! the per-block render bridge, each with a verified contract.

pub mod abi;
pub mod descriptor;
pub mod errors;
pub mod identity;
pub mod lifecycle;
pub mod render;
