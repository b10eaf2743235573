//! What the user sees: the status menu and the overlay that names a Workset.

pub mod color;
pub mod menu_laws;
pub mod overlay_laws;
pub mod status_bar;
pub mod workset_hud;
