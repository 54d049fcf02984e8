//! Logic shared by several screens.

pub mod collapse_view;
pub mod command_input_bar;
pub mod graphemes;
pub mod input_bar;
pub mod mention_input_bar;
pub mod position;
pub mod text;
