//! The main component of the voting system, with its member badges.
pub mod arcane_main;
pub mod resource_manager;
pub mod utils;
