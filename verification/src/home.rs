//! The home screen.

pub mod room_screen;
pub mod rooms_sidebar;
