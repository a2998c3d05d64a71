//! Verified core of a terminal video/voice call client: screen state machine,
//! signaling rules, presence bookkeeping and the text/layout decisions of the UI.

pub mod app_state;
pub mod client;
pub mod config;
pub mod laws;
pub mod layout;
pub mod presence;
pub mod server;
pub mod shared;
pub mod text;
pub mod token;
pub mod tui;
pub mod video;
