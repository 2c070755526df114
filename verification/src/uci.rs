//! The UCI-level machinery: the command/response correlation engine and the
//! notification model with its multiplexing support.

pub mod correlation;
pub mod notification;
