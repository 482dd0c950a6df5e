//! A small shared library: a greeting, and a sample poker game description.
//!
//! - [`greeting`] turns a name into a greeting. [`get_greeting`] is proved to
//!   return exactly [`greeting::greeting_text`] of the name.
//! - [`gamedef`] is the data contract for game descriptions: the types, the
//!   mathematical value of each, and what makes a description well formed.
//! - [`sample`] builds one fixed description. [`create_sample_game`] is
//!   proved to return exactly [`sample::sample_game`].

pub mod gamedef;
pub mod greeting;
pub mod sample;

pub use crate::gamedef::{game_structure, phase, GameStructure, Phase, Scoring, StandardDeck};
pub use crate::greeting::get_greeting;
pub use crate::sample::create_sample_game;
