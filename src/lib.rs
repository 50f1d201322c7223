//! Brightness control for local displays: the grammar and arithmetic of
//! brightness changes, the resolution of a display identifier to the backend
//! that controls it, the daemon's display inventory, and the serialised
//! handling of its requests.
pub mod backend;
pub mod brightness;
pub mod dispatch;
pub mod display_info;
pub mod format;
pub mod inventory;
pub mod ipc;
pub mod resolver;
pub mod search;
pub mod text;
