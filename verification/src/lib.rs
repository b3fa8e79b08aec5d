//! Two-party commit-reveal combat sessions.
//!
//! Each player commits to a hidden plan of three moves, both reveal, and a
//! deterministic engine replays the two plans into an outcome.
//!
//! - `moves`: attacks, defenses, plans and participant identities.
//! - `battle`: the engine that replays two plans, and what holds of it.
//! - `gateway`: the binding value of a proof's public inputs.
//! - `game`: one session with its two commitment slots and its outcome.
//! - `challenge`: invitations with points at stake.
//! - `username`: the rules for usernames and for the directory.
//! - `contract`: the contract's entry points, each on the records that the
//!   caller found in its store.
//! - `error`: the failures that the operations report.

pub mod battle;
pub mod challenge;
pub mod contract;
pub mod error;
pub mod game;
pub mod gateway;
pub mod moves;
pub mod username;
