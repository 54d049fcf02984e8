//! The screen of one room: its timeline and how the timeline is laid out.

pub mod collapse_small_state;
pub mod small_event;
pub mod timeline_item;
