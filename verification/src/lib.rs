//! Control plane for a kiosk-style device panel: an ordered event bus fed by
//! hardware buttons, terminal input and a ticker; a menu / active-tab / exit
//! navigation state machine; and per-tab lifecycles, including the managed
//! launch and teardown of an external emulator process.

pub mod app;
pub mod disk;
pub mod event;
pub mod gpio;
pub mod tabs;
