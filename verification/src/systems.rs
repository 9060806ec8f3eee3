//! The systems: what runs in a frame, and what each of them decides.

pub mod menu;
pub mod player;
pub mod schedule;
