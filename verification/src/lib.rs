//! A turn engine for a bluffing dice game: players hold hidden hands of dice,
//! take turns raising a shared bid or challenging it, and lose dice until one
//! player is left.

pub mod die;
pub mod guess;
pub mod hand;
pub mod laws;
pub mod player;
pub mod text;
pub mod message;
pub mod wait_for_players_to_join;
pub mod rules;
pub mod game;
