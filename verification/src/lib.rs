//! Session state synchronisation and turn orchestration for a two-player
//! Mancala board whose authoritative state lives on a remote server.
//!
//! The crate holds the single mirror of the server's game state, decides which
//! request is due at which moment, reconciles each answer into the mirror and
//! derives what the board shows. It performs no I/O: requests are described as
//! values and answers are handed in as values.

pub mod board;
pub mod laws;
pub mod menu;
pub mod orchestrator;
pub mod session;
pub mod store;
pub mod text;
pub mod types;
