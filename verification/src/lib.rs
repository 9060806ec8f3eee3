//! The core of a small game: a menu framework with keyboard and pointer
//! navigation, the application and pause state machines that gate it, the
//! player's movement decisions, and the diagnostics record that menus report
//! through.
//!
//! Every function here is a decision. The systems read the engine's
//! collection of pressed keys themselves; everything else that a frame
//! brings, the host runtime hands over as plain values. Nothing here draws,
//! spawns or sends: the host runtime carries out what the library returns.

pub mod components;
pub mod error;
pub mod input;
pub mod resources;
pub mod systems;
