//! The data that the systems work on: button catalogs and menus.

pub mod button;
pub mod menu;
