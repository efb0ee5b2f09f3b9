//! The components of the Arcane Labyrinth deployment: badge resources, core
//! data, vote components, the reward vault, member components and the main
//! component.
pub mod arcane_badge_manager;
pub mod arcane_core_data;
pub mod arcane_main;
pub mod arcane_member_component;
pub mod arcane_resources;
pub mod arcane_reward_vault;
pub mod arcane_vote;
pub mod utils;
