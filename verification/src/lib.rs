//! Room state machine of a hidden-role drawing party game.
//!
//! Players gather in a lobby; during the game they take turns drawing a secret word that one
//! of them, the fake artist, does not know; then everybody accuses somebody, and the accused
//! majority decides who wins.
//!
//! - [`model`] holds the mathematical value of every data type and the transitions of a room
//!   as functions on those values.
//! - [`game`] holds the data and the operations, each with a contract over the model.
//! - [`tally`] counts the accusations and names the accused majority.
//! - [`chance`] holds what is left to chance: the shuffle, the pick and fresh identities.
//! - [`game_server`] applies the commands of a room's mailbox, one at a time.
//! - [`laws`] proves what holds of a room over any number of commands.

pub mod chance;
pub mod game;
pub mod game_server;
pub mod laws;
pub mod model;
pub mod tally;
