//! Core of a driver for an ultra-wideband (UWB) radio speaking the UCI
//! (UWB Command Interface) wire protocol.
//!
//! The crate is organised around three pieces:
//!
//! * [`params`] — the structured ranging-configuration model: strongly typed
//!   per-protocol-family parameter records, their rendering into configuration
//!   TLVs, and the diff algorithm that decides which TLVs must be re-sent when
//!   a session's configuration changes.
//! * [`uci`] — the command/response correlation engine that serialises the
//!   command surface onto the HAL's single-command-in-flight link, plus the
//!   classification of asynchronous notifications and the handler trait
//!   through which a synchronous facade delivers them.
//! * [`proto`] — the cross-process mirror of the configuration and measurement
//!   types: widened plain-value records, the validating conversions in both
//!   directions, and the scrubbing of sensitive key material.

pub mod error;
pub mod params;
pub mod proto;
pub mod uci;
