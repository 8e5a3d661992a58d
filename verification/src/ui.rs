//! The decisions of the terminal interface: the inbound wizard, user and
//! routing editing, and the small state machines of the screens.

pub mod templates;
pub mod builder;
pub mod wizard;
pub mod keys;
pub mod users;
pub mod app;
pub mod screens;
