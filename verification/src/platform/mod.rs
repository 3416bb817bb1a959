//! What differs between desktops: notifications, the tray, the overlay, opening
//! threads and finding the input of the Codex window.  Each module decides;
//! the calls into the desktop are made by the surrounding program.

pub mod automation;
pub mod notification;
pub mod overlay;
pub mod promises;
pub mod shell;
pub mod tray;
