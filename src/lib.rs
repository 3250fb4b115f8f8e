//! Session engine of an interactive serial terminal: the screen state
//! machine, the transfer log, the line-input editor and the viewport.

pub mod clock;
pub mod config;
pub mod input_editor;
pub mod keys;
pub mod list_state;
pub mod screen;
pub mod session;
pub mod text;
pub mod transfer_log;
pub mod viewport;
