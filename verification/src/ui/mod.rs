//! The decisions and arithmetic behind the user interface: colours, labels,
//! layouts and the meaning of window messages. Drawing and the windows
//! themselves belong to the application.

pub mod tray;
pub mod window;
pub mod about;
pub mod image;
