//! A two-party card game whose whole state is one shared record: the record
//! and its byte layout, the transitions that the game's operations make on it,
//! and the decisions by which dealer and player follow each other's moves.

pub mod actions;
pub mod address;
pub mod client;
pub mod config;
pub mod deck;
pub mod driver;
pub mod error;
pub mod instructions;
pub mod notifier;
pub mod record;
pub mod wire;
