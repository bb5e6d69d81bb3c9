//! Start-up of the HTTP tracker.

pub mod plan;
pub mod tls;
