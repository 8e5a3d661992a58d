//! The services around the model: share links, configuration files, the
//! Xray process, certificates and logs.

pub mod error;
pub mod subscription;
pub mod xray;
pub mod systemd;
pub mod journal;
pub mod config_manager;
pub mod storage;
pub mod acme;
