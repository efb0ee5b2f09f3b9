pub mod decimal;
pub mod table;
pub mod error;
pub mod arcane_vote_style;
pub mod arcane_main;
pub mod arcane_vault;
pub mod arcane_reward_style;
pub mod labyrinth;
pub mod access;
