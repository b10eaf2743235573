//! The decisions of a tiling window manager for macOS: which screen is which,
//! which desktop a number names, what the status menu shows and what each
//! overlay does next.
//!
//! Everything here works on plain values. The program around the library asks
//! the window server, draws, and hands the answers in.

pub mod actor;
pub mod search;
pub mod sys;
pub mod text;
pub mod text_laws;
pub mod ui;
