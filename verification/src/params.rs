//! The structured parameter model: wire-level value types shared by every
//! command, and the per-protocol-family ranging configuration records.

pub mod app_config_params;
pub mod ccc_app_config_params;
pub mod fira_app_config_params;
pub mod uci_packets;
pub mod utils;
