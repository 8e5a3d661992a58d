//! The key handling of each screen: from a key press and the screen's state
//! to the new state and what the application should do.

pub mod dashboard;
pub mod inbound_list;
pub mod log_viewer;
pub mod others;
pub mod settings_page;
pub mod ssl_manager;
pub mod user_manager;
pub mod routing_editor;
pub mod wizard_keys;
