//! Verified core of a lightweight Windows memory cleaner: configuration
//! rules, memory statistics arithmetic, byte formatting, UTF-16 conversion,
//! the automatic-cleaning schedule and the decisions behind the tray and the
//! main window. Everything that talks to the operating system lives in the
//! application crate beside this library.

pub mod config;
pub mod util;
pub mod text;
pub mod mem;
pub mod scheduler;
pub mod ui;
pub mod startup;
