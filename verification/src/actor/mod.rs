//! What the actors of the window manager tell each other, and what they do on
//! an event.

pub mod command;
pub mod drop_preview;
pub mod preview_laws;
