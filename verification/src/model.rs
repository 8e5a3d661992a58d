//! The Xray configuration model: inbounds, protocols, transports, routing,
//! persisted settings and certificates.

pub mod common;
pub mod config;
pub mod copy;
pub mod protocol;
pub mod routing;
pub mod settings;
pub mod ssl;
pub mod stream;
