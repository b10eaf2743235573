//! Screens, desktops and input events.

pub mod desktop_laws;
pub mod display_selector;
pub mod event;
pub mod event_laws;
pub mod geometry;
pub mod geometry_laws;
pub mod screen;
pub mod screen_laws;
pub mod selector_laws;
pub mod space;
pub mod space_laws;
