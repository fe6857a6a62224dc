//! Core of a daily word-guessing game: the seeded secret-word selector, the
//! per-game guess ledger with its win and milestone rules, and the small
//! rendering helpers that turn game state into chat blocks.

pub mod blocks;
pub mod commands;
pub mod config;
pub mod dates;
pub mod display;
pub mod error;
pub mod game;
pub mod laws;
pub mod lifecycle;
pub mod models;
pub mod mt;
pub mod normalize;
pub mod payloads;
pub mod picker;
pub mod shuffle;
pub mod views;

pub use error::{SimilariumError, SimilariumErrorResponse, SimilariumErrorType};
pub use picker::SecretPicker;
