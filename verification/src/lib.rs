//! Controller of a system-tray context menu that follows a binary
//! "recording" state.
//!
//! The crate decides what the tray menu says and what an activated menu
//! item leads to. It owns no window, no tray icon and no event channel:
//! the surrounding application hands it the identity of the item that was
//! chosen and carries out the actions it answers with.

pub mod dispatcher;
pub mod event;
pub mod flag;
pub mod menu;
pub mod text;
pub mod trace;
pub mod tray;
